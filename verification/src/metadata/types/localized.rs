//! Localized names (`md:ServiceName`, `md:OrganizationName`, ...).

use vstd::prelude::*;
use crate::text::to_owned_string;

verus! {

/// Borrowed localized name.
#[derive(Debug, Clone, PartialEq)]
pub struct LocalizedNameRef<'a> {
    /// The `xml:lang` tag.
    pub lang: &'a str,
    /// The text.
    pub value: &'a str,
}

/// Owned localized name.
#[derive(Debug, Clone, PartialEq)]
pub struct LocalizedName {
    /// The `xml:lang` tag.
    pub lang: String,
    /// The text.
    pub value: String,
}

/// A localized name and its owned copy agree.
pub open spec fn localized_copied(a: LocalizedNameRef, b: LocalizedName) -> bool {
    a.lang@ == b.lang@ && a.value@ == b.value@
}

/// Every localized name of a list was copied, in order.
pub open spec fn localized_names_copied(a: Seq<LocalizedNameRef>, b: Seq<LocalizedName>) -> bool {
    a.len() == b.len() && forall|i: int| 0 <= i < a.len() ==> localized_copied(#[trigger] a[i], b[i])
}

impl<'a> LocalizedNameRef<'a> {
    /// Convert to an owned LocalizedName.
    pub fn to_owned(&self) -> (r: LocalizedName)
        ensures
            localized_copied(*self, r),
    {
        LocalizedName { lang: to_owned_string(self.lang), value: to_owned_string(self.value) }
    }
}

/// Owned copies of a list of localized names.
pub fn localized_names_to_owned(v: &Vec<LocalizedNameRef>) -> (r: Vec<LocalizedName>)
    ensures
        localized_names_copied(v@, r@),
{
    let mut out: Vec<LocalizedName> = Vec::new();
    let mut i: usize = 0;
    while i < v.len()
        invariant
            i <= v.len(),
            out.len() == i,
            forall|k: int| 0 <= k < i ==> localized_copied(#[trigger] v@[k], out@[k]),
        decreases v.len() - i,
    {
        out.push(v[i].to_owned());
        i = i + 1;
    }
    out
}

/// Borrowed localized URI (`md:OrganizationURL`, ...).
#[derive(Debug, Clone, PartialEq)]
pub struct LocalizedUriRef<'a> {
    /// The `xml:lang` tag.
    pub lang: &'a str,
    /// The URI.
    pub value: &'a str,
}

/// Owned localized URI.
#[derive(Debug, Clone, PartialEq)]
pub struct LocalizedUri {
    /// The `xml:lang` tag.
    pub lang: String,
    /// The URI.
    pub value: String,
}

/// Every localized URI of a list was copied, in order.
pub open spec fn localized_uris_copied(a: Seq<LocalizedUriRef>, b: Seq<LocalizedUri>) -> bool {
    a.len() == b.len() && forall|i: int|
        0 <= i < a.len() ==> (#[trigger] a[i]).lang@ == b[i].lang@ && a[i].value@ == b[i].value@
}

/// Owned copies of a list of localized URIs.
pub fn localized_uris_to_owned(v: &Vec<LocalizedUriRef>) -> (r: Vec<LocalizedUri>)
    ensures
        localized_uris_copied(v@, r@),
{
    let mut out: Vec<LocalizedUri> = Vec::new();
    let mut i: usize = 0;
    while i < v.len()
        invariant
            i <= v.len(),
            out.len() == i,
            forall|k: int| 0 <= k < i ==> (#[trigger] v@[k]).lang@ == out@[k].lang@ && v@[k].value@ == out@[k].value@,
        decreases v.len() - i,
    {
        out.push(LocalizedUri { lang: to_owned_string(v[i].lang), value: to_owned_string(v[i].value) });
        i = i + 1;
    }
    out
}

} // verus!
