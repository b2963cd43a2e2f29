//! Provisioning of a local multi-database development environment.
//!
//! The library decides what is done; the program around it does it. It
//! expands a target into its services, writes the container commands of each
//! service, orders the schema statements of the relational database, drives a
//! best-effort run over the services as a state machine, and classifies the
//! reply of the coordination backend.
pub mod config;
pub mod drivers;
pub mod orchestrator;
pub mod platform;
pub mod registrar;
pub mod schema;
pub mod target;

pub use config::{configure, parse_action, Config, ConfigError};
pub use drivers::{credential_line, setup_steps, teardown_steps, Credentials, Step};
pub use orchestrator::{setup, start, teardown, Outcome, Run, ServiceReport, StepFailure};
pub use platform::{Unix, Windows};
pub use registrar::{
    check_status, classify_reply, interpret_body, registration_body, registration_outcome,
    registration_url, BackendReply, RegistrationError,
};
pub use schema::{schema_script, SchemaOp, Table};
pub use target::{services, shell_program, Action, PerformOn, Service, OS};
