//! A datalink-layer channel over a packet-capture adapter.
//!
//! The library models the channel's logic: opening and configuring an
//! adapter, staging link-layer frames in fixed-size buffers, decoding the
//! receive buffer's length-prefixed, word-aligned record framing, and
//! releasing every acquired resource exactly once. The driver itself is an
//! outside collaborator: each of its calls appears here as a pending request
//! that a runner performs, handing the outcome back to the library.

pub mod adapter;
pub mod codec;
pub mod error;
pub mod iface;
pub mod receiver;
pub mod sender;
pub mod setup;
