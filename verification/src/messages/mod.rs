//! Messages and their representation on the wire.

pub mod codec;
pub mod groups;
pub mod jsonrpc;
pub mod payload;
