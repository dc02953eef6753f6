//! Building blocks for an encrypted point-to-point text chat between two
//! participants: one listener, one initiator.
//!
//! The heart of the crate is the duplex session pump in [`session`]: a state
//! machine that drives one live conversation, interleaving local input lines
//! and inbound frames until either side terminates. Its guarantees — each
//! non-blank line sent exactly once in order, every ping answered by one
//! identical pong, termination absorbing — are proved in [`laws`]. Around it
//! stand the trust policy of the initiator ([`policy`]), endpoint resolution
//! for the initiator's target ([`endpoint`]), the listener's ephemeral
//! identity ([`identity`]), and text helpers shared by all of them
//! ([`text`]).
//!
//! The crate holds no I/O: a caller owns the sockets, performs the handshakes
//! and runs the pump loop, feeding each observed event to [`session::step`]
//! and carrying out the action it returns.

pub mod endpoint;
pub mod identity;
pub mod ipinfo;
pub mod laws;
pub mod policy;
pub mod session;
pub mod text;
