//! A verified core for a long-lived event-subscription client.
//!
//! The library holds the logic of the client: building the OAuth request
//! URL and Basic-authorization header, reading the access token out of the
//! token endpoint's reply, routing inbound JSON envelopes to a handler
//! table, the bounded FIFO relay that serializes outbound frames, the
//! heartbeat rule, and the connection lifecycle's decisions. The
//! surrounding process performs the HTTP exchange and owns the socket; it
//! hands this library plain values and acts on the decisions it returns.

pub mod heartbeat;
pub mod json;
pub mod lifecycle;
pub mod relay;
pub mod service;
pub mod text;
