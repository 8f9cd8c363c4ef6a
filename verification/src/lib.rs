//! Core logic for a settings front-end around an external AV1 encoding
//! orchestrator: a command-line builder that projects a settings record into
//! the orchestrator's argument list, a parser for the progress lines the
//! orchestrator prints while it runs, and the small state machine that a
//! polling consumer drives while it drains those lines from a queue.

pub mod command;
pub mod models;
pub mod progress;
pub mod session;
pub mod settings;
pub mod text;
