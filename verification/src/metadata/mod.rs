//! SAML 2.0 metadata types: role descriptors, endpoints, key descriptors and
//! the metadata extensions the profiles consume.

pub mod serialize;
pub mod types;
