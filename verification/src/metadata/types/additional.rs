//! `md:AdditionalMetadataLocation` (saml-metadata-2.0-os section 2.3.2.3).

use vstd::prelude::*;
use crate::text::to_owned_string;

verus! {

/// Borrowed additional metadata location.
#[derive(Debug, Clone, PartialEq)]
pub struct AdditionalMetadataLocationRef<'a> {
    /// The namespace of the metadata found there.
    pub namespace: &'a str,
    /// The location URI.
    pub location: &'a str,
}

/// Owned additional metadata location.
#[derive(Debug, Clone, PartialEq)]
pub struct AdditionalMetadataLocation {
    /// The namespace of the metadata found there.
    pub namespace: String,
    /// The location URI.
    pub location: String,
}

/// Every location of a list was copied, in order.
pub open spec fn locations_copied(a: Seq<AdditionalMetadataLocationRef>, b: Seq<AdditionalMetadataLocation>) -> bool {
    a.len() == b.len() && forall|i: int|
        0 <= i < a.len() ==> (#[trigger] a[i]).namespace@ == b[i].namespace@ && a[i].location@ == b[i].location@
}

impl<'a> AdditionalMetadataLocationRef<'a> {
    /// Convert to owned AdditionalMetadataLocation.
    pub fn to_owned(&self) -> (r: AdditionalMetadataLocation)
        ensures
            r.namespace@ == self.namespace@,
            r.location@ == self.location@,
    {
        AdditionalMetadataLocation { namespace: to_owned_string(self.namespace), location: to_owned_string(self.location) }
    }
}

/// Owned copies of a list of locations.
pub fn locations_to_owned(v: &Vec<AdditionalMetadataLocationRef>) -> (r: Vec<AdditionalMetadataLocation>)
    ensures
        locations_copied(v@, r@),
{
    let mut out: Vec<AdditionalMetadataLocation> = Vec::new();
    let mut i: usize = 0;
    while i < v.len()
        invariant
            i <= v.len(),
            out.len() == i,
            forall|k: int|
                0 <= k < i ==> (#[trigger] v@[k]).namespace@ == out@[k].namespace@ && v@[k].location@ == out@[k].location@,
        decreases v.len() - i,
    {
        out.push(v[i].to_owned());
        i = i + 1;
    }
    out
}

} // verus!
