//! Decision logic of a toolchain version manager.
//!
//! The library decides; its caller acts. Nothing in it reads a file, runs a
//! process or talks to a remote: the caller reports what it observed and
//! receives what to do next.

pub mod layout;
pub mod text;
pub mod artifact;
pub mod publish;
pub mod fault;
pub mod clock;
pub mod repo;
pub mod pipeline;
pub mod world;
pub mod orchestrator;
pub mod config;
pub mod cli;
pub mod command;
pub mod report;
