//! The pipeline between the wire and the backend: the frontend, which frames
//! and unframes, and the message filter, which knows the backend's role.

pub mod filter;
pub mod frontend;
pub mod type_store;
