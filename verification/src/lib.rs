//! Supervision of external agent processes as a verified state machine.
//!
//! The library holds the registry of named sessions, their configuration,
//! their process state and their output logs, and decides what a driver has
//! to run, await or terminate. The driver performs that work and reports what
//! happened; every decision and every state change is specified here.

pub mod opencode;
pub mod pi;
pub mod prompts;
pub mod text;
