//! Small utilities for applications: tracing setup, a command-line REPL,
//! a Telegram message client, text-to-speech results and a read-throughput
//! meter.
//!
//! Every module states its behaviour in contracts over mathematical models.
//! Nothing here touches a file, the terminal or the network: a module
//! computes what is to be done and leaves the doing to the application.

pub mod measure;
pub mod repl;
pub mod telegram;
pub mod tracing;
pub mod tts;
