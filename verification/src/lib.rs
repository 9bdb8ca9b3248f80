//! The decisions of a non-blocking UDP socket that can be registered with a
//! readiness selector: with which selector a socket may be registered, and how
//! a registration request (token, interest, poll options) is expressed.

pub mod event;
pub mod selector;
pub mod udp;
