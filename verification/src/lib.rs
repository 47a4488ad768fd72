//! A minimal point-to-point file transfer library.
//!
//! One side listens on a TCP port and writes each incoming connection's
//! byte stream verbatim to the next file in a pre-declared ordered list;
//! the other side connects to a remote listener and streams local files to
//! it in order, one connection per file. This crate holds the verified
//! core: the sequencing and stream-copy logic that pairs connections with
//! an ordered list of targets and moves bytes between them. The binary
//! around it performs the actual socket and filesystem operations and
//! drives the state machines defined here.

pub mod copier;
pub mod errors;
pub mod laws;
pub mod paths;
pub mod receiver;
pub mod sender;
