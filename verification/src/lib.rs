//! The message-passing core of a mail-archive client: request protocols,
//! dual-mode handles (live queue or canned table) and the log record types.

pub mod actor;
pub mod api;
pub mod log;
pub mod net;
pub mod table;
pub mod text;
