//! Log records.

pub mod data;
