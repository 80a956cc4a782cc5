//! Compilation of a declarative terminal-workspace description into an
//! ordered sequence of multiplexer operations.
//!
//! The pipeline is one-way: a parsed document becomes a [`config::Configuration`],
//! the [`compiler`] turns it into a sequence of [`command::Command`] values, and
//! the [`driver`] maps each command to the argument list of one multiplexer
//! call. Reading files, spawning the multiplexer binary and attaching the user
//! are left to the surrounding program.

pub mod command;
pub mod compiler;
pub mod driver;
pub mod config;
pub mod orchestrator;
pub mod path;
pub mod project;
pub mod text;
pub mod tmux;
pub mod views;
