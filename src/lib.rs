//! A bridge from a capability-style RPC interface to a topic-based bus.
//!
//! A bootstrap object hands out one service per configured kind; a call on a
//! service checks its parameters, encodes the message as little-endian CDR and
//! yields exactly one publish request for the service's topic.
pub mod bootstrap;
pub mod codec;
pub mod message;
pub mod service;
