//! Request/reply correlation for a messaging layer.
//!
//! A request handed to a transport is answered by at most one reply. The
//! [`future::MessageFuture`] waits for that reply and remembers it; the
//! [`transport`] traits say what a transport has to offer; [`error`] holds
//! every failure a transport may report.
pub mod envelope;
pub mod error;
pub mod endpoint;
pub mod future;
pub mod transport;
pub mod laws;
