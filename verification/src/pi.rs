//! Sessions of the `pi` agent: configuration, per-session state and the registry.

pub mod commands;
pub mod config;
pub mod laws;
pub mod manager;
pub mod models;
pub mod session;

pub use config::{ConfigView, PiConfig};
pub use manager::{ManagerView, PiManager};
pub use session::{
    ErrorView, Invocation, InvocationView, Liveness, PiError, PiSession, ProcessHandle,
    SessionView,
};
