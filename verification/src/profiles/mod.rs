//! SAML 2.0 profiles: Web Browser SSO and ECP, identity provider discovery,
//! single logout, artifact resolution, assertion query/request, name
//! identifier mapping and management, subject confirmation, and the Sweden
//! Connect deployment profile.

pub mod artifact_resolution;
pub mod assertion_query;
pub mod confirmation;
pub mod error;
pub mod idp_discovery;
pub mod logout;
pub mod name_id_mapping;
pub mod name_id_mgmt;
pub mod pefim;
pub mod session;
pub mod sso;
pub mod swedenconnect;
