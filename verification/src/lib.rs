//! Core of a minimal command shell: a pipeline is decomposed into per-stage
//! commands, adjacent stages are connected by kernel channels, and every
//! spawned stage is reaped before control returns to the caller.
//!
//! The crate is split into:
//! - [`command`]: the stage parser, a pure function from one raw stage string
//!   (as bytes) to an argument vector plus optional file redirections;
//! - [`plan`]: the wiring planner, pure functions that decide for each stage
//!   which descriptor becomes its standard input and output and which channel
//!   endpoints it must close;
//! - [`executor`]: the pipeline session that allocates channels, hands out
//!   stage plans, records spawned children, and closes and reaps everything;
//! - [`sys`]: thin trusted wrappers around the host's descriptor calls.
//!
//! Process creation itself (fork and exec) happens at the host boundary, in
//! the unverified driver that owns the read loop; it asks the session here
//! for each stage's plan and reports back what the host did.

pub mod command;
pub mod executor;
pub mod plan;
pub mod sys;
