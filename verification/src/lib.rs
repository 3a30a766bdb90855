//! The decisions of `rusend`, a command-line client for a transactional email service.
//!
//! The library does no input or output. A command is run as a [`session::Session`]: the
//! session names the outside work to do next, takes its outcome, and in the end gives what
//! to show or why the command failed. What each step is, is stated over the mathematical
//! values of the types and proved.

pub mod address;
pub mod command;
pub mod config;
pub mod failure;
pub mod mailbox;
pub mod message;
pub mod protocol;
pub mod session;
pub mod text;
