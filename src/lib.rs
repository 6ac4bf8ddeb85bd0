//! Request-dispatch core of a client for a multiplexed RPC protocol, with
//! the locator client built on it.
//!
//! Inbound frames arrive as `(message type, payload)` pairs whose payload is a
//! self-describing [`value::Value`]. The decoders in [`graph`], [`protocol`] and
//! [`locator`] read such payloads into typed results, and the state machines in
//! [`dispatch`] decide, frame by frame, what is delivered to the caller and
//! whether the call expects more frames.
//!
//! On the wire a record is the array of its fields in declaration order, and
//! a mapping is a map whose keys occur once each; entries keep wire order.

pub mod value;
pub mod error;
pub mod graph;
pub mod protocol;
pub mod locator;
pub mod dispatch;
