//! A local development gateway for data-intensive applications: it routes
//! HTTP-posted events to message-broker topics via a live route table,
//! aggregates an introspection console over broker topics and analytics-store
//! tables, and sequences the bring-up and validation of the backing services.
//!
//! The decision logic — request routing, ingestion planning, console payload
//! construction, readiness validation, and the infrastructure lifecycle state
//! machine — is verified. The surrounding process (HTTP serving, container
//! commands, file I/O) lives outside the library and feeds it plain values.

pub mod display;
pub mod framework;
pub mod json;
pub mod lifecycle;
pub mod local_webserver;
pub mod logger;
pub mod project;
pub mod route_table;
pub mod routines;
pub mod text;
pub mod validate;

pub use display::{Message, MessageType};
