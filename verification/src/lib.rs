//! SAML 2.0 library: metadata types, profile logic and deployment profiles.

pub mod assertion;
pub mod bindings;
pub mod encoding;
pub mod markup;
pub mod metadata;
pub mod profiles;
pub mod protocol;
pub mod security;
pub mod text;
pub mod xml;
pub mod xml_writer;
