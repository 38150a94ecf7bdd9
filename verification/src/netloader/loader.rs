//! Finding a server and sending a file to it.

pub mod arguments;
pub mod deflate;
pub mod discovery;
pub mod send;
