//! A persisted bulletin board: one stored record holding a counter, the
//! identity of its creator and an append-only list of messages, changed by
//! commands and read by queries.

pub mod contract;
pub mod error;
pub mod history;
pub mod msg;
pub mod response;
pub mod state;
