//! The decisions of a command-line assistant: what its arguments ask for, which configuration and
//! credential it runs with, what it writes, and how its interactive session unfolds.
//!
//! Reading, writing, querying and saving are left to the program around this library. It reports
//! what happened and is told what to do next, what to write and with which status to exit.

pub mod auth;
pub mod headless;
pub mod json;
pub mod mcp;
pub mod options;
pub mod output;
pub mod prompt;
pub mod repl;
pub mod session;
pub mod startup;
pub mod text;
