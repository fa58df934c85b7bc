//! The metadata element types.

pub mod additional;
pub mod affiliation;
pub mod attr_authority;
pub mod authn_authority;
pub mod contact;
pub mod endpoint;
pub mod entity_descriptor;
pub mod extensions;
pub mod idp;
pub mod key_descriptor;
pub mod localized;
pub mod md_extensions;
pub mod organization;
pub mod pdp;
pub mod role_descriptor;
pub mod sp;
pub mod spid;
