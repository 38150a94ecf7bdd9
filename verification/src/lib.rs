//! Create projects for a console and push programs to it over the local
//! network.
//!
//! The crate holds the decisions of the tool, free of any I/O:
//!
//! - [`netloader`] is the protocol by which a program reaches the console:
//!   how the server is looked for, what is written to it and in which order,
//!   how its answers are read, and how the output of the running program is
//!   taken back. Each of the three is a state machine. A driver performs the
//!   socket operations that a machine asks for and hands back what happened.
//! - [`link`] reads the command line of an upload: which file is sent, under
//!   which name the server is to save it, and with which arguments it runs.
//! - [`new`] fills in the templates that a new project starts from.
//! - [`text`] holds what the others need to work on text character by
//!   character.

pub mod link;
pub mod netloader;
pub mod new;
pub mod text;
