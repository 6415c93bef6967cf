//! The frontend: bytes from the wire in, messages for the filter out, and
//! the other way round. It owns the two buffers and touches no stream: who
//! drives it hands it the bytes that were read and takes the bytes to write.

use vstd::prelude::*;
use crate::json::{json_printed, JsonView};
use crate::messages::codec::buffer::{
    buffer_extend, buffer_len, buffer_new, buffer_take, buffered,
};
use crate::messages::codec::decode::{
    frame_step, is_message_step, leaves_bytes, DecodeError, FrameStep,
};
use crate::messages::codec::encode::{fits, is_encoded, EncodeError};
use crate::messages::codec::scan::scanned_headers;
use crate::messages::codec::{LanguageServerCodec, MAX_HEADERS};
use crate::messages::groups::responses::{DecodeErrorResponse, ResponseErrors};
use crate::messages::groups::AllMessages;
use crate::messages::jsonrpc::response::{is_response_json, ResponseIdView};

verus! {

/// The frontend's state: the bytes that were read and not yet decoded, the
/// bytes that were encoded and not yet written, and the decoder.
///
/// A header block that is refused stays in the input. So that it is answered
/// once and not with every pass, the frontend stalls on it: it decodes again
/// when more bytes have come.
#[derive(Debug)]
pub struct ServiceFrontend {
    pub input: bytes::BytesMut,
    pub output: bytes::BytesMut,
    pub codec: LanguageServerCodec<AllMessages>,
    pub stalled: bool,
}

/// What writing a message to the output comes to: there is a JSON value that
/// stands for the message, and the output ends with the frame of its text;
/// or the output is as it was, and the outcome says why.
pub open spec fn is_written(
    message: AllMessages,
    before: Seq<u8>,
    after: Seq<u8>,
    outcome: Result<(), EncodeError>,
) -> bool {
    exists|json: JsonView| #[trigger]
        message.written_as(json) && is_encoded(json_printed(json), before, after, outcome)
}

/// Whether the frontend stalls on what the decoder came to.
pub open spec fn stalls(decoded: Result<Option<AllMessages>, DecodeError>) -> bool {
    decoded matches Err(e) && leaves_bytes(e@)
}

/// What the frontend does with what the decoder came to: a message goes to
/// the filter; a decode error is answered on the output with a parse error
/// that is addressed to nobody, and nothing goes to the filter.
pub open spec fn is_answered(
    decoded: Result<Option<AllMessages>, DecodeError>,
    before: Seq<u8>,
    after: Seq<u8>,
    outcome: Result<Option<AllMessages>, EncodeError>,
) -> bool {
    match decoded {
        Ok(message) => after == before && outcome == Ok::<Option<AllMessages>, EncodeError>(
            message,
        ),
        Err(e) => exists|json: JsonView, written: Result<(), EncodeError>| #[trigger]
            is_encoded(json_printed(json), before, after, written) && is_response_json(
                json,
                DecodeErrorResponse::response_spec(ResponseIdView::Null, e@.message()).message(),
            ) && outcome == match written {
                Ok(_) => Ok::<Option<AllMessages>, EncodeError>(None),
                Err(e) => Err(e),
            },
    }
}

/// The step of the decoder on the input of a frontend.
pub open spec fn input_step(frontend: ServiceFrontend) -> FrameStep {
    frame_step(
        frontend.codec.known_content_length,
        buffered(frontend.input),
        scanned_headers(buffered(frontend.input), MAX_HEADERS as nat),
    )
}

/// What the inbound half of a pass comes to, where `decoded` is what the
/// decoder returned, if it was asked: a stalled frontend asks nothing and
/// changes nothing; else the decoder makes its step on the input, what it
/// came to is answered, and the frontend stalls where the error leaves its
/// bytes in the input.
pub open spec fn is_inbound_half(
    before: ServiceFrontend,
    decoded: Result<Option<AllMessages>, DecodeError>,
    after: ServiceFrontend,
    outcome: Result<Option<AllMessages>, EncodeError>,
) -> bool {
    if before.stalled {
        &&& after.stalled
        &&& after.codec == before.codec
        &&& buffered(after.input) == buffered(before.input)
        &&& buffered(after.output) == buffered(before.output)
        &&& outcome == Ok::<Option<AllMessages>, EncodeError>(None)
    } else {
        &&& is_message_step(
            input_step(before),
            decoded,
            after.codec.known_content_length,
            buffered(after.input),
        )
        &&& is_answered(decoded, buffered(before.output), buffered(after.output), outcome)
        &&& after.stalled == stalls(decoded)
    }
}

/// What the outbound half of a pass comes to: the message from the filter,
/// if there is one, is written to the output, and nothing else changes.
pub open spec fn is_outbound_half(
    before: ServiceFrontend,
    from_filter: Option<AllMessages>,
    after: ServiceFrontend,
    outcome: Result<(), EncodeError>,
) -> bool {
    &&& after.stalled == before.stalled
    &&& after.codec == before.codec
    &&& buffered(after.input) == buffered(before.input)
    &&& match from_filter {
        Some(message) => is_written(
            message,
            buffered(before.output),
            buffered(after.output),
            outcome,
        ),
        None => outcome is Ok && buffered(after.output) == buffered(before.output),
    }
}

/// What one pass comes to, given the frontend `between` its halves: where
/// the inbound half could not write its answer, the pass ends there; else
/// the outbound half follows, and the pass hands on what the inbound half
/// decoded.
pub open spec fn is_pass(
    before: ServiceFrontend,
    decoded: Result<Option<AllMessages>, DecodeError>,
    between: ServiceFrontend,
    inbound: Result<Option<AllMessages>, EncodeError>,
    from_filter: Option<AllMessages>,
    after: ServiceFrontend,
    outcome: Result<Option<AllMessages>, EncodeError>,
) -> bool {
    &&& is_inbound_half(before, decoded, between, inbound)
    &&& match inbound {
        Err(e) => after == between && outcome == Err::<Option<AllMessages>, EncodeError>(e),
        Ok(message) => exists|written: Result<(), EncodeError>| #[trigger]
            is_outbound_half(between, from_filter, after, written) && outcome == match written {
                Ok(_) => Ok::<Option<AllMessages>, EncodeError>(message),
                Err(e) => Err(e),
            },
    }
}

impl ServiceFrontend {
    /// A frontend that has read and written nothing.
    pub fn new() -> (frontend: ServiceFrontend)
        ensures
            buffered(frontend.input) == Seq::<u8>::empty(),
            buffered(frontend.output) == Seq::<u8>::empty(),
            frontend.codec.known_content_length.is_none(),
            !frontend.stalled,
    {
        ServiceFrontend {
            input: buffer_new(),
            output: buffer_new(),
            codec: LanguageServerCodec::default(),
            stalled: false,
        }
    }

    /// Takes the bytes that were read from the wire. Bytes that the input
    /// buffer has no room for are not taken: the answer is `false`. With new
    /// bytes in the input, a stalled frontend decodes again.
    pub fn receive(&mut self, bytes: &[u8]) -> (taken: bool)
        ensures
            taken == fits(buffered(old(self).input).len(), bytes@.len()),
            buffered(final(self).input) == if taken {
                buffered(old(self).input) + bytes@
            } else {
                buffered(old(self).input)
            },
            final(self).stalled == (old(self).stalled && !(taken && bytes@.len() > 0)),
            buffered(final(self).output) == buffered(old(self).output),
            final(self).codec == old(self).codec,
    {
        let held = buffer_len(&self.input);
        let limit = isize::MAX as usize;
        if held > limit || bytes.len() > limit - held {
            return false;
        }
        buffer_extend(&mut self.input, bytes);
        if bytes.len() > 0 {
            self.stalled = false;
        }
        true
    }

    /// Hands out the bytes that are to be written to the wire.
    pub fn take_output(&mut self) -> (bytes: Vec<u8>)
        ensures
            bytes@ == buffered(old(self).output),
            buffered(final(self).output) == Seq::<u8>::empty(),
            buffered(final(self).input) == buffered(old(self).input),
            final(self).codec == old(self).codec,
            final(self).stalled == old(self).stalled,
    {
        let held = buffer_len(&self.output);
        let bytes = buffer_take(&mut self.output, held);
        bytes
    }

    /// Writes a message from the filter, if there is one, to the output.
    pub fn forward_from_message_filter(&mut self, from_filter: Option<AllMessages>) -> (outcome:
        Result<(), EncodeError>)
        ensures
            is_outbound_half(*old(self), from_filter, *final(self), outcome),
    {
        match from_filter {
            Some(message) => self.codec.encode(message, &mut self.output),
            None => Ok(()),
        }
    }

    /// Decodes the next message of the input, if it is there, for the
    /// filter. A decode error is answered on the output at once.
    pub fn try_forward_to_message_filter(&mut self) -> (outcome: Result<
        Option<AllMessages>,
        EncodeError,
    >)
        ensures
            exists|decoded: Result<Option<AllMessages>, DecodeError>|
                is_inbound_half(*old(self), decoded, *final(self), outcome),
    {
        if self.stalled {
            assert(is_inbound_half(
                *old(self),
                Ok::<Option<AllMessages>, DecodeError>(None),
                *self,
                Ok::<Option<AllMessages>, EncodeError>(None),
            ));
            return Ok(None);
        }
        let decoded = self.codec.decode(&mut self.input);
        let ghost witness = decoded;
        let outcome = match decoded {
            Ok(message) => Ok(message),
            Err(e) => {
                let ghost text = e@.message();
                self.stalled = e.leaves_bytes();
                let response = ResponseErrors::Decode(DecodeErrorResponse::new(e));
                let answer = AllMessages::from(response.into_response());
                let ghost sent = answer;
                let written = self.codec.encode(answer, &mut self.output);
                proof {
                    let json = choose|json: JsonView| #[trigger]
                        sent.written_as(json) && is_encoded(
                            json_printed(json),
                            buffered(old(self).output),
                            buffered(self.output),
                            written,
                        );
                    assert(is_encoded(
                        json_printed(json),
                        buffered(old(self).output),
                        buffered(self.output),
                        written,
                    ) && is_response_json(
                        json,
                        DecodeErrorResponse::response_spec(ResponseIdView::Null, text).message(),
                    ));
                }
                match written {
                    Ok(_) => Ok(None),
                    Err(e) => Err(e),
                }
            },
        };
        proof {
            assert(is_inbound_half(*old(self), witness, *self, outcome));
        }
        outcome
    }

    /// One pass of the frontend: first the input is decoded for the filter,
    /// then the message from the filter, if there is one, is written to the
    /// output.
    pub fn tick(&mut self, from_filter: Option<AllMessages>) -> (outcome: Result<
        Option<AllMessages>,
        EncodeError,
    >)
        ensures
            exists|decoded: Result<Option<AllMessages>, DecodeError>,
                between: ServiceFrontend,
                inbound: Result<Option<AllMessages>, EncodeError>|
                is_pass(*old(self), decoded, between, inbound, from_filter, *final(self), outcome),
    {
        let inbound = self.try_forward_to_message_filter();
        let ghost between = *self;
        let ghost first = inbound;
        let ghost decoded = choose|decoded: Result<Option<AllMessages>, DecodeError>|
            is_inbound_half(*old(self), decoded, between, first);
        let outcome = match inbound {
            Err(e) => Err(e),
            Ok(message) => {
                let written = self.forward_from_message_filter(from_filter);
                let ghost second = written;
                let outcome = match written {
                    Ok(_) => Ok(message),
                    Err(e) => Err(e),
                };
                assert(is_outbound_half(between, from_filter, *self, second) && outcome
                    == match second {
                    Ok(_) => Ok::<Option<AllMessages>, EncodeError>(message),
                    Err(e) => Err(e),
                });
                outcome
            },
        };
        proof {
            assert(is_pass(*old(self), decoded, between, first, from_filter, *self, outcome));
        }
        outcome
    }
}

} // verus!
