//! SAML bindings: the SOAP 1.1 envelope and the PAOS/ECP header blocks.

pub mod paos;
pub mod soap;
