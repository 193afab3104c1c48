//! Lifecycle management of a local inference service that can only be reached
//! through its command-line program and the text that program prints.
//!
//! The library decides and never acts. What the program printed goes in as
//! plain values; what is to be done next comes out as plain values.
//!
//! - `text`, `unicode`, `pattern`: character sequences, and what is taken on
//!   trust about Unicode and regular expressions.
//! - `parser`: the fields that are read out of console text.
//! - `command`, `error`: requests, results and failures.
//! - `manager`: the questions that one result answers.
//! - `task`: the protocol between a task and the one who runs the program.
//! - `probe`, `start`, `polling`, `model`, `status`, `commands`: the tasks.

pub mod command;
pub mod commands;
pub mod error;
pub mod manager;
pub mod model;
pub mod parser;
pub mod pattern;
pub mod polling;
pub mod probe;
pub mod start;
pub mod status;
pub mod task;
pub mod text;
pub mod unicode;
