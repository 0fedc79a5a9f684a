//! Orchestration of a two-stage release build: the shared configuration
//! file is put into build mode, the frontend and then the application are
//! built, each with its own compiler-flag overlay, the first failure stops
//! the stages, and the file always goes back to default mode afterwards.
//!
//! The run is a state machine ([`pipeline::Pipeline`]): its caller performs
//! each action it is handed (a whole-file write, a command, the exit) and
//! reports back whether it succeeded.

pub mod command;
pub mod config;
pub mod guard;
pub mod laws;
pub mod pipeline;
pub mod stages;
