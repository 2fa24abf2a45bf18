//! Outbound packet construction for a legacy OICQ-family instant-messaging
//! wire protocol.
//!
//! The crate builds, byte for byte, the request payloads a server of that
//! protocol family expects: length-prefixed binary primitives, the JCE
//! name/value RPC envelope, protobuf-framed business payloads, and the
//! transport-level packet record that carries routing and sequencing
//! metadata.  Every builder states in its contract exactly which bytes it
//! emits; the sequencing counters state how each draw relates to the state
//! before it.

pub mod binary_reader;

pub mod errors;

pub mod jce;

pub mod packet;

pub mod pb;

pub mod engine;

pub mod builders_jce;

pub mod builders_proto;

pub mod builders_sync;
