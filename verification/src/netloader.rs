//! The client side of the netloader protocol.

use vstd::prelude::*;

pub mod frame;
pub mod loader;
pub mod stdio;

verus! {

/// The port the server listens on: TCP for file transfers, UDP for discovery
/// probes.
pub const SERVER_PORT: u16 = 28280;

/// The port of the client: discovery replies arrive here over UDP, and the
/// console output of a running program over TCP.
pub const CLIENT_PORT: u16 = 28771;

/// `std::io::Error`, carried through unread: the library hands a transport
/// error back as it got it.
#[verifier::external_type_specification]
#[verifier::external_body]
pub struct ExIoError(std::io::Error);

} // verus!
