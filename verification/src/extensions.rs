//! Backend extension manifests and the registry of installed extensions: manifest
//! validation, provenance boundaries, blocklist checks, install records with rollback
//! pointers, and explicit service provide / consume declarations. Nothing here executes
//! extension code.
pub mod declarations;
pub mod endpoint;
pub mod endpoint_laws;
pub mod fields;
pub mod laws;
pub mod manifest;
pub mod manifest_laws;
pub mod records;
pub mod registry;
pub mod registry_laws;
pub mod registry_model;
pub mod service;
pub mod snapshot;
pub mod validation;
