//! The remote service's records and the requests that address it.

pub mod client;

pub use client::OpenCodeClient;
pub use client::{Agent, FileDiff, HealthResponse, Message, MessagePart, Session};
