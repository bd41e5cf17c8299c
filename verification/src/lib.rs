//! GraftX: remoting of GPU API calls between two guests.
//!
//! A client shim serializes graphics and compute entrypoints into protocol
//! frames; a server decodes each frame, routes it to the backend of its API
//! namespace, and frames the reply. This crate holds the wire contract, the
//! generational handle table, the server session with its stub backends, the
//! client's request and reply codecs, and the metrics and tracing around them.
//! The functions carry contracts that Verus proves. Four in [`obs::timer`] call the
//! clock and the durations of std: what they promise is taken on trust, and of a
//! timer's start nothing is promised.
pub mod client;
pub mod handles;
pub mod obs;
pub mod protocol;
pub mod server;
pub mod text;
pub mod tools;
pub mod trace;
