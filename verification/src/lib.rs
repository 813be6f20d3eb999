//! Static validation of scripts for a sandboxed, database-hosted runtime.
//!
//! The sandbox binds a fixed set of namespaces. A script may not declare a
//! name that shadows one of them, and may not declare a variable at its root.
//! The validator walks the script's syntax tree once, depth first, and
//! reports every violation in the order in which the declarations stand.
//!
//! - [`registry`]: the reserved names.
//! - [`ast`]: the syntax tree and its mathematical model.
//! - [`diagnostic`]: diagnostics, their messages and the collector.
//! - [`validator`]: the walk, and what it reports for every tree.
//! - [`parser`]: from text to syntax tree, by way of the parser.
//! - [`boundary`]: parse, validate, and only then ask the interpreter.
//! - [`laws`]: what holds of the validator on every script.

pub mod ast;
pub mod boundary;
pub mod diagnostic;
pub mod laws;
pub mod parser;
pub mod registry;
pub mod validator;
