//! Metadata endpoints (saml-metadata-2.0-os section 2.2.2, 2.2.3).

use vstd::prelude::*;
use crate::text::{opt_str_to_owned, opt_str_view, opt_string_view, to_owned_string};

verus! {

/// Borrowed endpoint - references parsed XML.
#[derive(Debug, Clone, PartialEq)]
pub struct EndpointRef<'a> {
    /// The binding URI.
    pub binding: &'a str,
    /// The endpoint location.
    pub location: &'a str,
    /// The optional response location.
    pub response_location: Option<&'a str>,
}

/// Owned endpoint.
#[derive(Debug, Clone, PartialEq)]
pub struct Endpoint {
    /// The binding URI.
    pub binding: String,
    /// The endpoint location.
    pub location: String,
    /// The optional response location.
    pub response_location: Option<String>,
}

/// An endpoint and its owned copy agree field by field.
pub open spec fn endpoint_copied(a: EndpointRef, b: Endpoint) -> bool {
    &&& a.binding@ == b.binding@
    &&& a.location@ == b.location@
    &&& opt_str_view(a.response_location) == opt_string_view(b.response_location)
}

/// Every endpoint of a list was copied, in order.
pub open spec fn endpoints_copied(a: Seq<EndpointRef>, b: Seq<Endpoint>) -> bool {
    a.len() == b.len() && forall|i: int| 0 <= i < a.len() ==> endpoint_copied(#[trigger] a[i], b[i])
}

impl<'a> EndpointRef<'a> {
    /// Convert to an owned Endpoint.
    pub fn to_owned(&self) -> (r: Endpoint)
        ensures
            endpoint_copied(*self, r),
    {
        Endpoint {
            binding: to_owned_string(self.binding),
            location: to_owned_string(self.location),
            response_location: opt_str_to_owned(self.response_location),
        }
    }
}

impl Endpoint {
    /// An endpoint with a binding and location and no response location.
    pub fn new(binding: &str, location: &str) -> (r: Self)
        ensures
            r.binding@ == binding@,
            r.location@ == location@,
            r.response_location is None,
    {
        Endpoint { binding: to_owned_string(binding), location: to_owned_string(location), response_location: None }
    }
}

/// Owned copies of a list of endpoints.
pub fn endpoints_to_owned(v: &Vec<EndpointRef>) -> (r: Vec<Endpoint>)
    ensures
        endpoints_copied(v@, r@),
{
    let mut out: Vec<Endpoint> = Vec::new();
    let mut i: usize = 0;
    while i < v.len()
        invariant
            i <= v.len(),
            out.len() == i,
            forall|k: int| 0 <= k < i ==> endpoint_copied(#[trigger] v@[k], out@[k]),
        decreases v.len() - i,
    {
        out.push(v[i].to_owned());
        i = i + 1;
    }
    out
}

/// Borrowed indexed endpoint.
#[derive(Debug, Clone, PartialEq)]
pub struct IndexedEndpointRef<'a> {
    /// The endpoint.
    pub endpoint: EndpointRef<'a>,
    /// The endpoint index.
    pub index: u16,
    /// Whether this is the default endpoint (optional).
    pub is_default: Option<bool>,
}

/// Owned indexed endpoint.
#[derive(Debug, Clone, PartialEq)]
pub struct IndexedEndpoint {
    /// The endpoint.
    pub endpoint: Endpoint,
    /// The endpoint index.
    pub index: u16,
    /// Whether this is the default endpoint (optional).
    pub is_default: Option<bool>,
}

/// An indexed endpoint and its owned copy agree field by field.
pub open spec fn indexed_endpoint_copied(a: IndexedEndpointRef, b: IndexedEndpoint) -> bool {
    endpoint_copied(a.endpoint, b.endpoint) && a.index == b.index && a.is_default == b.is_default
}

/// Every indexed endpoint of a list was copied, in order.
pub open spec fn indexed_endpoints_copied(a: Seq<IndexedEndpointRef>, b: Seq<IndexedEndpoint>) -> bool {
    a.len() == b.len() && forall|i: int| 0 <= i < a.len() ==> indexed_endpoint_copied(#[trigger] a[i], b[i])
}

impl<'a> IndexedEndpointRef<'a> {
    /// Convert to an owned IndexedEndpoint.
    pub fn to_owned(&self) -> (r: IndexedEndpoint)
        ensures
            indexed_endpoint_copied(*self, r),
    {
        IndexedEndpoint { endpoint: self.endpoint.to_owned(), index: self.index, is_default: self.is_default }
    }
}

impl IndexedEndpoint {
    /// An indexed endpoint with no `isDefault` attribute.
    pub fn new(endpoint: Endpoint, index: u16) -> (r: Self)
        ensures
            r.endpoint == endpoint,
            r.index == index,
            r.is_default is None,
    {
        IndexedEndpoint { endpoint, index, is_default: None }
    }

    /// An indexed endpoint marked `isDefault="true"`.
    pub fn new_default(endpoint: Endpoint, index: u16) -> (r: Self)
        ensures
            r.endpoint == endpoint,
            r.index == index,
            r.is_default == Some(true),
    {
        IndexedEndpoint { endpoint, index, is_default: Some(true) }
    }
}

/// Owned copies of a list of indexed endpoints.
pub fn indexed_endpoints_to_owned(v: &Vec<IndexedEndpointRef>) -> (r: Vec<IndexedEndpoint>)
    ensures
        indexed_endpoints_copied(v@, r@),
{
    let mut out: Vec<IndexedEndpoint> = Vec::new();
    let mut i: usize = 0;
    while i < v.len()
        invariant
            i <= v.len(),
            out.len() == i,
            forall|k: int| 0 <= k < i ==> indexed_endpoint_copied(#[trigger] v@[k], out@[k]),
        decreases v.len() - i,
    {
        out.push(v[i].to_owned());
        i = i + 1;
    }
    out
}

} // verus!
