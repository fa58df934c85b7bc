//! Deployment Profile for the Swedish eID Framework (Sweden Connect).

pub mod authn_context;
pub mod config;
pub mod constants;
pub mod error;
pub mod idp;
pub mod metadata;
pub mod principal_selection;
pub mod request;
pub mod response;
pub mod sign_message;
