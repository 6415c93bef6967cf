//! The framing codec: header block, empty line, body of the announced length.

pub mod buffer;
pub mod decode;
pub mod encode;
pub mod round_trip;
pub mod scan;

pub use decode::DecodeError;
pub use encode::EncodeError;

use std::marker::PhantomData;
use vstd::prelude::*;
use crate::messages::groups::MessageGroup;

verus! {

/// The most headers a header block may hold: the protocol knows two.
pub const MAX_HEADERS: usize = 2;

/// The codec for the messages of the set `M`. Between two calls it remembers
/// the content length of the frame whose header block has been read and whose
/// body is still awaited.
#[derive(Debug)]
pub struct LanguageServerCodec<M: MessageGroup> {
    pub known_content_length: Option<usize>,
    pub marker: PhantomData<M>,
}

impl<M: MessageGroup> Default for LanguageServerCodec<M> {
    fn default() -> (codec: Self)
        ensures
            codec.known_content_length.is_none(),
    {
        Self { known_content_length: None, marker: PhantomData }
    }
}

} // verus!
