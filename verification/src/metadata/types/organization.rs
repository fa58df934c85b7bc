//! `md:Organization` (saml-metadata-2.0-os section 2.3.2.1).

use vstd::prelude::*;
use super::contact::{extensions_copied, extensions_to_owned};
use super::extensions::Extensions;
use super::localized::{
    localized_names_copied, localized_names_to_owned, localized_uris_copied, localized_uris_to_owned, LocalizedName,
    LocalizedNameRef, LocalizedUri, LocalizedUriRef,
};

verus! {

/// Borrowed organization.
#[derive(Debug, Clone, PartialEq)]
pub struct OrganizationRef<'a> {
    /// The raw XML of the organization's `Extensions`, if any.
    pub extensions: Option<&'a str>,
    /// `md:OrganizationName` values (1..n).
    pub organization_names: Vec<LocalizedNameRef<'a>>,
    /// `md:OrganizationDisplayName` values (1..n).
    pub organization_display_names: Vec<LocalizedNameRef<'a>>,
    /// `md:OrganizationURL` values (1..n).
    pub organization_urls: Vec<LocalizedUriRef<'a>>,
}

/// Owned organization.
#[derive(Debug, Clone, PartialEq)]
pub struct Organization {
    /// The organization's `Extensions`, if any.
    pub extensions: Option<Extensions>,
    /// `md:OrganizationName` values (1..n).
    pub organization_names: Vec<LocalizedName>,
    /// `md:OrganizationDisplayName` values (1..n).
    pub organization_display_names: Vec<LocalizedName>,
    /// `md:OrganizationURL` values (1..n).
    pub organization_urls: Vec<LocalizedUri>,
}

/// An organization and its owned copy agree field by field.
pub open spec fn organization_copied(a: OrganizationRef, b: Organization) -> bool {
    &&& extensions_copied(a.extensions, b.extensions)
    &&& localized_names_copied(a.organization_names@, b.organization_names@)
    &&& localized_names_copied(a.organization_display_names@, b.organization_display_names@)
    &&& localized_uris_copied(a.organization_urls@, b.organization_urls@)
}

impl<'a> OrganizationRef<'a> {
    /// Convert to owned Organization.
    pub fn to_owned(&self) -> (r: Organization)
        ensures
            organization_copied(*self, r),
    {
        Organization {
            extensions: extensions_to_owned(self.extensions),
            organization_names: localized_names_to_owned(&self.organization_names),
            organization_display_names: localized_names_to_owned(&self.organization_display_names),
            organization_urls: localized_uris_to_owned(&self.organization_urls),
        }
    }
}

} // verus!
