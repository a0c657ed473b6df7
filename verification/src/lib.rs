//! Colourful crash reports: a panic summary and an annotated stack trace,
//! rendered as a sequence of coloured text pieces.
//!
//! The library decides what a report says and in which order; writing the
//! pieces to a terminal and reading source files is left to the caller.
//!
//! - `verbosity`: the detail level, and how a configuration value sets it.
//! - `frame`: a symbol of the call stack, its class, and how it is shown.
//! - `source`: the excerpt of a source file round a line.
//! - `capture`: the call stack of the running program.
//! - `handler`: the report of one panic, step by step.
//! - `piece`, `text`: coloured output and text layout.
//! - `laws`: what holds of every report.

pub mod capture;
pub mod frame;
pub mod handler;
pub mod laws;
pub mod piece;
pub mod source;
pub mod text;
pub mod verbosity;
