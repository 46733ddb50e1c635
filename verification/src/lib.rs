//! A declarative task runner: named tasks are defined in a configuration
//! document, each one of four shapes (a plain command, a shell snippet, a
//! serial group of other tasks, or a parallel group of other tasks), and an
//! execution engine resolves names against a read-only registry and runs
//! them, aggregating failures from parallel groups.
//!
//! The engine itself is written as step functions and small state machines:
//! every decision (which process to start, whether a group continues after a
//! failure, how failures aggregate) is made here, while the surrounding
//! binary performs the process spawning, thread handling and printing that
//! the decisions call for.

pub mod engine;
pub mod error;
pub mod registry;
pub mod resolve;
pub mod strutil;
pub mod tasks;
pub mod terminal;
