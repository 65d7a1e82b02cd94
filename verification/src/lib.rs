//! A verified core for a minimal HTTP request helper: issue one request,
//! classify the response status, and retry server errors under a bounded
//! policy.
//!
//! The retry decisions are pure functions over plain values and are verified.
//! The network itself stays behind a transport: a scripted transport replays
//! a fixed list of events for the verified loop, while the real client of the
//! `reqwest` crate is held opaquely and driven from unverified glue.

pub mod classify;
pub mod laws;
pub mod model;
pub mod requester;
pub mod transport;
