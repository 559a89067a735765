//! A JSON-RPC style envelope: one type for requests, which carry an
//! identifier and expect a reply, and notifications, which carry none.
//!
//! A request goes over the wire as its payload's object with the identifier
//! under `id`; a notification goes as its payload alone. Decoding looks for
//! `id` first and lets that field alone decide which payload type the rest is
//! read as.
//!
//! - [`json`]: structured values, which are `serde_json`'s, and the tree
//!   that each stands for; every contract in the crate is stated over trees.
//! - [`payload`]: what a payload type has to offer, and the `method` /
//!   `params` convention for tagged payloads.
//! - [`requests`], [`notifications`]: two payload types that follow it.
//! - [`envelope`]: the message type with its encoder and decoder.
//! - [`laws`]: what is proved of the codec as a whole.
//! - [`strings`]: string comparison for the method names.

pub mod json;
pub mod strings;
pub mod payload;
pub mod requests;
pub mod notifications;
pub mod envelope;
pub mod laws;
