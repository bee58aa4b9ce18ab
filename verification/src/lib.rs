//! A bridge between git's remote-helper protocol and the Gemini protocol.
//!
//! The crate holds the two wire contracts of a `git-remote-gemini` helper:
//! how a Gemini response is split into header and body, and how the commands
//! that git sends on standard input are read and answered. Sockets, TLS and
//! the standard streams belong to the program that drives this library.

pub mod client;
pub mod command;
pub mod endpoint;
pub mod framing;
pub mod helper;
pub mod progress;
pub mod refs;
