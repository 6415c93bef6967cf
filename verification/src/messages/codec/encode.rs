//! Writing frames to the end of a buffer.

use vstd::prelude::*;
use vstd::utf8::*;
use crate::json::{json_printed, Json};
use crate::messages::codec::buffer::{buffer_extend, buffer_len, buffered};
use crate::messages::codec::LanguageServerCodec;
use crate::messages::groups::MessageGroup;
use crate::messages::payload::headers::{header_lines, lemma_header_lines_valid, JsonRpcHeaders};
use crate::text::{lemma_ascii_valid, push_bytes};

verus! {

/// Why no message could be encoded.
#[derive(Debug)]
pub enum EncodeError {
    /// The message could not be printed; the text is the JSON printer's error.
    Serialize(String),
    /// The buffer cannot take the frame; the text says why.
    Io(String),
}

/// The mathematical view of a `EncodeError`.
pub enum EncodeFault {
    Serialize(Seq<char>),
    Io(Seq<char>),
}

impl View for EncodeError {
    type V = EncodeFault;

    open spec fn view(&self) -> EncodeFault {
        match self {
            EncodeError::Serialize(text) => EncodeFault::Serialize(text@),
            EncodeError::Io(text) => EncodeFault::Io(text@),
        }
    }
}

impl EncodeFault {
    /// What the fault says.
    pub open spec fn message(self) -> Seq<char> {
        match self {
            EncodeFault::Serialize(text) => text,
            EncodeFault::Io(text) => text,
        }
    }
}

impl EncodeError {
    /// What the error says, as text.
    pub fn to_string(&self) -> (text: String)
        ensures
            text@ == self@.message(),
    {
        match self {
            EncodeError::Serialize(text) => text.clone(),
            EncodeError::Io(text) => text.clone(),
        }
    }
}

/// What is said of a frame that the buffer cannot take.
pub const FRAME_TOO_LONG: &'static str = "the frame does not fit the buffer";

/// A body under the header lines that announce `content_length` bytes: the
/// header lines, the empty line, the body.
pub open spec fn framed(content_length: nat, body: Seq<u8>) -> Seq<u8> {
    header_lines(content_length) + seq![13u8, 10u8] + body
}

/// The frame of a body: the body under header lines that announce its length.
pub open spec fn frame(body: Seq<u8>) -> Seq<u8> {
    framed(body.len(), body)
}

/// A UTF-8 body under header lines is UTF-8.
pub proof fn lemma_framed_valid(content_length: nat, body: Seq<u8>)
    requires
        valid_utf8(body),
    ensures
        valid_utf8(framed(content_length, body)),
{
    let line_end = seq![13u8, 10u8];
    lemma_header_lines_valid(content_length);
    lemma_ascii_valid(line_end);
    valid_utf8_concat(header_lines(content_length), line_end);
    valid_utf8_concat(header_lines(content_length) + line_end, body);
}

/// `body` under the header lines `header`, as bytes.
pub fn framed_bytes(header: &JsonRpcHeaders, body: &[u8]) -> (bytes: Vec<u8>)
    ensures
        bytes@ == framed(header.content_length as nat, body@),
{
    let mut out = header.to_bytes();
    out.push(13);
    out.push(10);
    push_bytes(&mut out, body);
    out
}

/// The frame of `body`, as bytes.
pub fn frame_bytes(body: &[u8]) -> (bytes: Vec<u8>)
    ensures
        bytes@ == frame(body@),
{
    framed_bytes(&JsonRpcHeaders::new(body.len()), body)
}

/// Whether a buffer that holds `held` bytes can take `more`: a buffer never
/// holds more than `isize::MAX` bytes.
pub open spec fn fits(held: nat, more: nat) -> bool {
    held + more <= isize::MAX
}

/// What comes of framing a body: the frame at the end of the buffer; or,
/// where the buffer cannot take the frame, the complaint that says so, and
/// the buffer as it was.
pub open spec fn is_framed(
    body: Seq<u8>,
    before: Seq<u8>,
    after: Seq<u8>,
    outcome: Result<(), EncodeError>,
) -> bool {
    if fits(before.len(), frame(body).len()) {
        outcome is Ok && after == before + frame(body)
    } else {
        outcome matches Err(e) && e@ == EncodeFault::Io(FRAME_TOO_LONG@) && after == before
    }
}

/// What comes of encoding once the JSON printer has spoken: the printed text
/// is framed; or the printer's complaint is handed on, and the buffer stays
/// as it was.
pub open spec fn is_encoded(
    printed: Result<Seq<char>, Seq<char>>,
    before: Seq<u8>,
    after: Seq<u8>,
    outcome: Result<(), EncodeError>,
) -> bool {
    match printed {
        Ok(text) => is_framed(encode_utf8(text), before, after, outcome),
        Err(complaint) => outcome matches Err(e) && e@ == EncodeFault::Serialize(complaint)
            && after == before,
    }
}

impl<M: MessageGroup> LanguageServerCodec<M> {
    /// Appends the frame of `body` to `dst`, where `dst` can take it.
    pub fn encode_frame(&mut self, body: &[u8], dst: &mut bytes::BytesMut) -> (outcome: Result<
        (),
        EncodeError,
    >)
        ensures
            is_framed(body@, buffered(*old(dst)), buffered(*final(dst)), outcome),
            *final(self) == *old(self),
    {
        let framed = frame_bytes(body);
        let held = buffer_len(dst);
        let limit = isize::MAX as usize;
        if held > limit || framed.len() > limit - held {
            return Err(EncodeError::Io(FRAME_TOO_LONG.to_owned()));
        }
        buffer_extend(dst, framed.as_slice());
        Ok(())
    }

    /// Appends the frame of what the JSON printer made of a message to
    /// `dst`, where it printed the message and the frame fits.
    pub fn encode_printed(
        &mut self,
        printed: Result<String, String>,
        dst: &mut bytes::BytesMut,
    ) -> (outcome: Result<(), EncodeError>)
        ensures
            is_encoded(
                match printed {
                    Ok(text) => Ok(text@),
                    Err(complaint) => Err(complaint@),
                },
                buffered(*old(dst)),
                buffered(*final(dst)),
                outcome,
            ),
            *final(self) == *old(self),
    {
        match printed {
            Err(complaint) => Err(EncodeError::Serialize(complaint)),
            Ok(text) => self.encode_frame(text.as_str().as_bytes(), dst),
        }
    }

    /// Appends the frame of a message to `dst`: the message is written as a
    /// JSON value, the value is printed, and the text is framed.
    pub fn encode(&mut self, item: M, dst: &mut bytes::BytesMut) -> (outcome: Result<
        (),
        EncodeError,
    >)
        ensures
            exists|json: Json| #[trigger]
                call_ensures(M::to_json, (&item,), json) && is_encoded(
                    json_printed(json@),
                    buffered(*old(dst)),
                    buffered(*final(dst)),
                    outcome,
                ),
            *final(self) == *old(self),
    {
        let json = item.to_json();
        let printed = json.print();
        let outcome = self.encode_printed(printed, dst);
        assert(call_ensures(M::to_json, (&item,), json) && is_encoded(
            json_printed(json@),
            buffered(*old(dst)),
            buffered(*dst),
            outcome,
        ));
        outcome
    }
}

} // verus!
