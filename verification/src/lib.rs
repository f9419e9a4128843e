//! Peer-to-peer file hand-off: a rendezvous relay that pairs two parties by
//! passphrase, and a stop-and-wait transport that carries the file between them.
//!
//! Nothing in this library touches a socket, a file, a clock or a terminal.
//! Every part is a function or a state machine that is told what happened
//! and answers what to do, so that all of it can be verified and the program
//! around it only has to obey.
//!
//! - [`frame`] and [`transport`]: the wire format and the two ends of the
//!   reliable transport. [`link`] and [`network`] state what the transport
//!   guarantees over a network that loses, repeats and reorders datagrams.
//! - [`wire`], [`passphrase`] and [`relay`]: the rendezvous protocol's
//!   messages, the passphrases and the relay's sessions.
//! - [`client`] and [`flow`]: what a sender and a receiver decide, and the
//!   order in which they do things.
//! - [`error`]: what can go wrong.

pub mod error;
pub mod frame;
pub mod transport;
pub mod link;
pub mod network;
pub mod wire;
pub mod passphrase;
pub mod relay;
pub mod client;
pub mod flow;
