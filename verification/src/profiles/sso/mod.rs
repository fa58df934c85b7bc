//! SAML 2.0 Single Sign-On profiles: the shared Web Browser SSO types and
//! helpers, and the SP side of the request/response exchange.

pub mod ecp;
pub mod idp;
pub mod sp;
pub mod web_browser;
