//! Safety layer for driving an embedded JavaScript engine from a host
//! program: runtime configuration, a tagged value model with per-kind
//! handle types, bytecode format validation, and a closed error taxonomy
//! that classifies foreign engine failures.
//!
//! Every handle operation goes through an exclusively borrowed
//! [`jsi::JSRuntime`], so a handle can never be read or mutated behind the
//! back of the context that owns its heap entry.

pub mod config;
pub mod error;
pub mod jsi;
pub mod script;
pub mod text;

pub use config::RuntimeConfig;
pub use config::RuntimeConfigBuilder;
pub use error::Error;
