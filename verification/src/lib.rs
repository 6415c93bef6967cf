//! Transport core of a Language Server Protocol runtime: the framing codec,
//! the message taxonomy, the direction-aware message filter and the error
//! responses that flow between them.
//!
//! The library touches no stream and no channel: bytes and messages are
//! handed to it and taken from it. Four things it leaves to others and
//! believes what they say: the header parser (`httparse`), the JSON parser
//! and printer (`serde_json`), the byte buffer (`bytes`), and the UTF-8
//! decoder of the standard library. Everything else is proved:
//!
//! - [`messages::payload`]: the header block, how it is validated and written;
//! - [`messages::codec`]: frames in and out of a buffer, call by call;
//! - [`messages::jsonrpc`]: requests, notifications, responses and errors as
//!   JSON objects;
//! - [`messages::groups`]: every method of the protocol, by kind and by side;
//! - [`service`]: the frontend, the message filter and the record of the
//!   requests that are out.

pub mod json;
pub mod messages;
pub mod service;
pub mod text;
