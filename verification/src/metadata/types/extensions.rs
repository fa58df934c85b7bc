//! `md:Extensions`, kept as opaque raw XML.

use vstd::prelude::*;
use crate::text::to_owned_string;

verus! {

/// A metadata `Extensions` element, kept as raw XML.
#[derive(Debug, Clone, PartialEq)]
pub struct Extensions {
    /// The raw XML of the element (or of its children).
    pub raw_xml: String,
}

impl Extensions {
    /// Extensions holding the given raw XML.
    pub fn new(raw_xml: &str) -> (r: Self)
        ensures
            r.raw_xml@ == raw_xml@,
    {
        Extensions { raw_xml: to_owned_string(raw_xml) }
    }
}

} // verus!
