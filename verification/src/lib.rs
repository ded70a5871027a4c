//! The resolution and dispatch core of an interactive command shell.
//!
//! A line of input names a command: one that the shell runs itself (`echo`,
//! `type`, `exit`), or a program found on the search path. This crate decides
//! what a line means and what running it comes to.
//!
//! The crate performs no input or output. Whatever needs the outside world
//! (showing the prompt, reading a line, the status of a file, the start of a
//! program, writing a line) is asked of the caller, who performs it and hands
//! the answer back.
//!
//! - [`text`] splits lines into words and path lists into fields.
//! - [`resolver`] tells builtins from other names, and searches the
//!   directories of the search path for a file that can be run.
//! - [`command`] parses a line into a command and runs a command.
//! - [`shell`] is the loop around them.

pub mod command;
pub mod resolver;
pub mod shell;
pub mod text;
