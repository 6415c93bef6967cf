//! Taking frames off the front of a buffer.

use vstd::prelude::*;
use crate::json::{json_parsed, Json, JsonView};
use crate::messages::codec::buffer::{
    buffer_advance, buffer_bytes, buffer_capacity, buffer_len, buffer_reserve, buffer_take,
    buffered,
};
use crate::messages::codec::scan::{scanned_headers, HeaderScan, HeaderScanView};
use crate::messages::codec::{LanguageServerCodec, MAX_HEADERS};
use crate::messages::groups::MessageGroup;
use crate::messages::jsonrpc::MessageError;
use crate::messages::payload::headers::{
    validate, HeaderFault, HeadersParseError, JsonRpcHeaders,
};

verus! {

/// Why no message could be decoded.
#[derive(Debug)]
pub enum DecodeError {
    /// The byte source failed; the text is its error.
    Io(String),
    /// The bytes are no header block; the text is the header parser's error.
    Httparse(String),
    /// The header block is not one of this protocol.
    HeadersParseError(HeadersParseError),
    /// The body is no message; the text is the JSON parser's error.
    Deserialize(String),
}

/// The mathematical view of a `DecodeError`.
pub enum DecodeFault {
    Io(Seq<char>),
    Httparse(Seq<char>),
    HeadersParseError(HeaderFault),
    Deserialize(Seq<char>),
}

impl View for DecodeError {
    type V = DecodeFault;

    open spec fn view(&self) -> DecodeFault {
        match self {
            DecodeError::Io(text) => DecodeFault::Io(text@),
            DecodeError::Httparse(text) => DecodeFault::Httparse(text@),
            DecodeError::HeadersParseError(e) => DecodeFault::HeadersParseError(e@),
            DecodeError::Deserialize(text) => DecodeFault::Deserialize(text@),
        }
    }
}

/// Whether a decode error leaves the bytes that it complains of in the
/// input: the errors of the header block do, the errors of a body do not.
pub open spec fn leaves_bytes(fault: DecodeFault) -> bool {
    fault is Httparse || fault is HeadersParseError
}

impl DecodeFault {
    /// What the fault says.
    pub open spec fn message(self) -> Seq<char> {
        match self {
            DecodeFault::Io(text) => text,
            DecodeFault::Httparse(text) => text,
            DecodeFault::HeadersParseError(fault) => fault.message(),
            DecodeFault::Deserialize(text) => text,
        }
    }
}

impl DecodeError {
    /// Whether the peer may send another message after this error: it may
    /// after a frame that was refused, and not after the byte source failed.
    pub fn is_recoverable(&self) -> (recoverable: bool)
        ensures
            recoverable == !(self@ is Io),
    {
        match self {
            DecodeError::Io(_) => false,
            _ => true,
        }
    }

    /// Whether the error leaves the bytes that it complains of in the input.
    pub fn leaves_bytes(&self) -> (left: bool)
        ensures
            left == leaves_bytes(self@),
    {
        match self {
            DecodeError::Httparse(_) | DecodeError::HeadersParseError(_) => true,
            DecodeError::Io(_) | DecodeError::Deserialize(_) => false,
        }
    }

    /// What the error says, as text.
    pub fn to_string(&self) -> (text: String)
        ensures
            text@ == self@.message(),
    {
        match self {
            DecodeError::Io(text) => text.clone(),
            DecodeError::Httparse(text) => text.clone(),
            DecodeError::HeadersParseError(e) => e.to_string(),
            DecodeError::Deserialize(text) => text.clone(),
        }
    }
}

/// What one call of the decoder comes to: a body, the wish for more bytes
/// (`Ok(None)`) or an error; the content length it remembers afterwards; and
/// the bytes it leaves in the buffer.
pub struct FrameStep {
    pub outcome: Result<Option<Seq<u8>>, DecodeFault>,
    pub known: Option<usize>,
    pub rest: Seq<u8>,
}

/// Waiting for a body of `length` bytes: once the buffer holds that many, they
/// are the body, and what follows them stays as the start of the next frame.
pub open spec fn body_step(length: usize, buffer: Seq<u8>) -> FrameStep {
    if buffer.len() < length {
        FrameStep { outcome: Ok(None), known: Some(length), rest: buffer }
    } else {
        FrameStep {
            outcome: Ok(Some(buffer.take(length as int))),
            known: None,
            rest: buffer.skip(length as int),
        }
    }
}

/// A step that asks for more bytes and changes nothing.
pub open spec fn waiting_step(buffer: Seq<u8>) -> FrameStep {
    FrameStep { outcome: Ok(None), known: None, rest: buffer }
}

/// A step that fails and changes nothing.
pub open spec fn failing_step(buffer: Seq<u8>, fault: DecodeFault) -> FrameStep {
    FrameStep { outcome: Err(fault), known: None, rest: buffer }
}

/// One call of the decoder on `buffer`, where `scan` is what the header parser
/// made of the buffer. With a content length remembered, the scan plays no
/// part. A complete header block that validates is dropped from the buffer
/// and the body is awaited at once; one without a content length asks for
/// more bytes; any other fault is an error. A block that claims more bytes
/// than the buffer holds counts as incomplete.
pub open spec fn frame_step(
    known: Option<usize>,
    buffer: Seq<u8>,
    scan: HeaderScanView,
) -> FrameStep {
    match known {
        Some(length) => body_step(length, buffer),
        None => match scan {
            HeaderScanView::Partial => waiting_step(buffer),
            HeaderScanView::Malformed(text) => failing_step(buffer, DecodeFault::Httparse(text)),
            HeaderScanView::Complete { consumed, headers } => if consumed > buffer.len() {
                waiting_step(buffer)
            } else {
                match validate(headers) {
                    Ok(length) => body_step(length as usize, buffer.skip(consumed as int)),
                    Err(HeaderFault::MissingContentLength) => waiting_step(buffer),
                    Err(fault) => failing_step(buffer, DecodeFault::HeadersParseError(fault)),
                }
            },
        },
    }
}

/// What comes of a body once the JSON parser has spoken: what the message
/// set reads from the parsed value, with its complaint, if it has one, as
/// text; or the parser's complaint.
pub open spec fn is_read<M: MessageGroup>(
    parsed: Result<JsonView, Seq<char>>,
    outcome: Result<M, DecodeError>,
) -> bool {
    match parsed {
        Err(complaint) => outcome matches Err(e) && e@ == DecodeFault::Deserialize(complaint),
        Ok(value) => exists|json: Json, read: Result<M, MessageError>| #[trigger]
            call_ensures(M::from_json, (&json,), read) && json@ == value && match read {
                Ok(message) => outcome == Ok::<M, DecodeError>(message),
                Err(complaint) => outcome matches Err(e) && e@ == DecodeFault::Deserialize(
                    complaint@.message(),
                ),
            },
    }
}

/// Whether what a call of the message decoder returned and left behind is the
/// step `step`, with the body, where the step has one, read as a message.
pub open spec fn is_message_step<M: MessageGroup>(
    step: FrameStep,
    outcome: Result<Option<M>, DecodeError>,
    known: Option<usize>,
    rest: Seq<u8>,
) -> bool {
    &&& known == step.known
    &&& rest == step.rest
    &&& match step.outcome {
        Err(fault) => outcome matches Err(e) && e@ == fault,
        Ok(None) => outcome matches Ok(None),
        Ok(Some(body)) => match outcome {
            Ok(Some(message)) => is_read::<M>(json_parsed(body), Ok(message)),
            Ok(None) => false,
            Err(e) => is_read::<M>(json_parsed(body), Err(e)),
        },
    }
}

/// Whether what a call returned and left behind is the step `step`.
pub open spec fn is_step(
    step: FrameStep,
    outcome: Result<Option<Vec<u8>>, DecodeError>,
    known: Option<usize>,
    rest: Seq<u8>,
) -> bool {
    &&& known == step.known
    &&& rest == step.rest
    &&& match outcome {
        Ok(Some(body)) => step.outcome == Ok::<Option<Seq<u8>>, DecodeFault>(Some(body@)),
        Ok(None) => step.outcome == Ok::<Option<Seq<u8>>, DecodeFault>(None),
        Err(e) => step.outcome == Err::<Option<Seq<u8>>, DecodeFault>(e@),
    }
}

impl<M: MessageGroup> LanguageServerCodec<M> {
    /// Takes the next frame's body off the front of `src`, if `src` holds all
    /// of it. The header block is read with the header parser, with room for
    /// the two headers of the protocol.
    pub fn decode_frame(&mut self, src: &mut bytes::BytesMut) -> (outcome: Result<
        Option<Vec<u8>>,
        DecodeError,
    >)
        ensures
            is_step(
                frame_step(
                    old(self).known_content_length,
                    buffered(*old(src)),
                    scanned_headers(buffered(*old(src)), MAX_HEADERS as nat),
                ),
                outcome,
                final(self).known_content_length,
                buffered(*final(src)),
            ),
    {
        match self.known_content_length {
            Some(_) => self.decode_scanned(HeaderScan::Partial, src),
            None => {
                let scan = HeaderScan::of(buffer_bytes(src));
                self.decode_scanned(scan, src)
            },
        }
    }

    /// The decoder's step once the header parser has spoken: `scan` is its
    /// verdict on what `src` holds.
    pub fn decode_scanned(&mut self, scan: HeaderScan, src: &mut bytes::BytesMut) -> (outcome:
        Result<Option<Vec<u8>>, DecodeError>)
        ensures
            is_step(
                frame_step(old(self).known_content_length, buffered(*old(src)), scan@),
                outcome,
                final(self).known_content_length,
                buffered(*final(src)),
            ),
    {
        if let Some(length) = self.known_content_length {
            return self.decode_body(length, src);
        }
        match scan {
            HeaderScan::Partial => Ok(None),
            HeaderScan::Malformed(text) => Err(DecodeError::Httparse(text)),
            HeaderScan::Complete { consumed, headers } => {
                if consumed > buffer_len(src) {
                    return Ok(None);
                }
                match JsonRpcHeaders::try_from(headers.as_slice()) {
                    Ok(validated) => {
                        let length = validated.content_length;
                        self.known_content_length = Some(length);
                        buffer_advance(src, consumed);
                        let held = buffer_len(src);
                        let capacity = buffer_capacity(src);
                        let limit = isize::MAX as usize;
                        if length > capacity && held <= limit && length - capacity <= limit - held {
                            buffer_reserve(src, length - capacity);
                        }
                        self.decode_body(length, src)
                    },
                    Err(HeadersParseError::MissingContentLength) => Ok(None),
                    Err(e) => Err(DecodeError::HeadersParseError(e)),
                }
            },
        }
    }

    /// Reads the message that the JSON parser's verdict on a body stands for.
    pub fn decode_parsed(parsed: Result<Json, String>) -> (outcome: Result<M, DecodeError>)
        ensures
            is_read(
                match parsed {
                    Ok(json) => Ok(json@),
                    Err(complaint) => Err(complaint@),
                },
                outcome,
            ),
    {
        match parsed {
            Err(complaint) => Err(DecodeError::Deserialize(complaint)),
            Ok(json) => match M::from_json(&json) {
                Ok(message) => Ok(message),
                Err(e) => Err(DecodeError::Deserialize(e.to_string())),
            },
        }
    }

    /// Reads the message that a body holds.
    pub fn decode_body_message(body: &[u8]) -> (outcome: Result<M, DecodeError>)
        ensures
            is_read(json_parsed(body@), outcome),
    {
        Self::decode_parsed(Json::parse(body))
    }

    /// Takes the next message off the front of `src`, if `src` holds all of
    /// its frame. The frame leaves the buffer also where its body is no
    /// message.
    pub fn decode(&mut self, src: &mut bytes::BytesMut) -> (outcome: Result<Option<M>, DecodeError>)
        ensures
            is_message_step(
                frame_step(
                    old(self).known_content_length,
                    buffered(*old(src)),
                    scanned_headers(buffered(*old(src)), MAX_HEADERS as nat),
                ),
                outcome,
                final(self).known_content_length,
                buffered(*final(src)),
            ),
    {
        match self.decode_frame(src) {
            Err(e) => Err(e),
            Ok(None) => Ok(None),
            Ok(Some(body)) => match Self::decode_body_message(body.as_slice()) {
                Ok(message) => Ok(Some(message)),
                Err(e) => Err(e),
            },
        }
    }

    /// Hands out the body of `length` bytes once `src` holds it.
    fn decode_body(&mut self, length: usize, src: &mut bytes::BytesMut) -> (outcome: Result<
        Option<Vec<u8>>,
        DecodeError,
    >)
        ensures
            is_step(
                body_step(length, buffered(*old(src))),
                outcome,
                final(self).known_content_length,
                buffered(*final(src)),
            ),
    {
        if buffer_len(src) < length {
            self.known_content_length = Some(length);
            return Ok(None);
        }
        let body = buffer_take(src, length);
        self.known_content_length = None;
        Ok(Some(body))
    }
}

} // verus!
