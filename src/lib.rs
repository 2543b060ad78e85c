//! Runs a script body through one of several command-line shells.
//!
//! The verified part of the library decides everything about a run that does
//! not need the operating system: how each shell is invoked, how a script body
//! is assembled and normalized, how arguments are delivered, which environment
//! entries the child process receives, and how the collected result of the
//! child process becomes an outcome.
pub mod argument;
pub mod environment;
pub mod errors;
pub mod execution;
pub mod script;
pub mod shell;
pub mod text;

pub use self::argument::{Argument, Platform};
pub use self::environment::EnvCollector;
pub use self::errors::ShellError;
pub use self::execution::{Execution, WaitOutcome};
pub use self::script::Script;
pub use self::shell::Shell;
