//! The control logic of a deployment engine: which version of a database is
//! deployed for a request, which calls create and delete a service on its
//! target, in which order and with what, and how the readiness of domains is
//! checked. The calls themselves are made by the caller; every decision is
//! verified against the models that the modules state.

pub mod build_platform;
pub mod cloud_provider;
pub mod cmd;
pub mod container_registry;
pub mod error;
pub mod models;
pub mod string;
pub mod template;
