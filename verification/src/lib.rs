//! Typed access to the services that a Cloud Foundry platform binds to an
//! application.
//!
//! The platform hands the bindings over as a JSON document in the environment
//! variable named by [`VCAP_SERVICES`]. This library turns the text of that
//! variable into a [`ServiceCatalog`] and looks up the credentials of a
//! service by its name. Reading the process environment is left to the
//! caller, who passes the variable's value in.

pub mod catalog;
pub mod decode;
pub mod encode;
pub mod json;
pub mod laws;
pub mod model;
pub mod services;

pub use catalog::ServiceCatalog;
pub use json::Json;
pub use model::{CFError, Credentials, CredentialsView, Service, ServiceView, VCAP_SERVICES};
pub use services::{get_service_cred_from_env, get_service_credentials, get_services_from_env};
