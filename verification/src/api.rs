//! Facades over the transport layer.

pub mod lore;
