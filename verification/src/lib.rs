//! The decisions of a client that measures how often hole punching succeeds.
//!
//! A server tells the client about remote peers behind a NAT. The client dials each of them through
//! a relay, lets the direct connection upgrade protocol punch a hole, and reports to the server how
//! that went. What the client does next is decided here, by `session::Session`; what comes of a
//! single hole punch is kept in `hole_punch::HolePunchState`.
pub mod action;
pub mod bytes;
pub mod call_laws;
pub mod clock;
pub mod config;
pub mod event;
pub mod event_laws;
pub mod hole_punch;
pub mod hole_punch_laws;
pub mod identity;
pub mod message;
pub mod multiaddr;
pub mod rounds;
pub mod session;
pub mod session_laws;
pub mod step_laws;
pub mod text;
pub mod view_laws;
