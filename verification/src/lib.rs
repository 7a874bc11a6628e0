//! A minimal remote-command service, verified.
//!
//! Clients authenticate with a shared password over a CRLF-framed line
//! protocol and then issue a small, closed set of commands.  The crate
//! holds the three parts worth proving: the command grammar
//! ([`command`]), the per-connection session state machine
//! ([`session`]), and the line framing ([`framing`]).  The byte stream
//! itself (TCP, optionally TLS-wrapped) and the filesystem are
//! collaborators that an embedding program drives; this crate only
//! decides what to do with what they hand back.

pub mod command;
pub mod framing;
pub mod session;
pub mod text;
