//! Core of a TLS-terminating front door for a single plaintext backend:
//! certificate material naming, TLS server context construction, backend
//! address selection, and the state machines that drive the accept loop and
//! each forwarding session.

pub mod acceptor;
pub mod material;
pub mod resolve;
pub mod session;
pub mod tls;
