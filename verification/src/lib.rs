//! Command dispatch for the `omega` command line.
//!
//! The library decides, from the arguments of one invocation, which command
//! runs, what is written to standard output and with which status the
//! process ends. It performs no input or output itself: the caller prints
//! [`Outcome::output`] and exits with [`Outcome::exit_code`].

pub mod command;
pub mod dispatcher;
pub mod text;

pub use command::Command;
pub use dispatcher::{dispatch, select, DispatchError, Outcome};
