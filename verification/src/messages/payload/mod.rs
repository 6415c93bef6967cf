//! The representation of one message on the wire: headers and body.

pub mod headers;

use vstd::prelude::*;
use vstd::utf8::*;
use crate::json::{json_printed, Json};
use crate::messages::codec::encode::{
    framed, framed_bytes, lemma_framed_valid, EncodeError, EncodeFault,
};
use crate::messages::groups::MessageGroup;
use crate::messages::payload::headers::JsonRpcHeaders;
use crate::text::text_of_valid;

verus! {

/// A message as it goes onto the wire: the JSON text of the body, and the
/// headers that announce it.
#[derive(Debug)]
pub struct Payload {
    pub header: JsonRpcHeaders,
    pub body: String,
}

/// The name that the payload has where the protocol is spoken of.
pub type ProtocolMessage = Payload;

/// What comes of a payload once the JSON printer has spoken: the printed text
/// as the body, under the header that announces its length in bytes; or the
/// printer's complaint.
pub open spec fn is_printed_payload(
    printed: Result<Seq<char>, Seq<char>>,
    made: Result<Payload, EncodeError>,
) -> bool {
    match printed {
        Ok(text) => made matches Ok(payload) && payload.body@ == text
            && payload.header.content_length == encode_utf8(text).len(),
        Err(complaint) => made matches Err(e) && e@ == EncodeFault::Serialize(complaint),
    }
}

impl Payload {
    /// The payload with the body `body`.
    pub fn new(body: String) -> (payload: Payload)
        ensures
            payload.body == body,
            payload.header.content_length == encode_utf8(body@).len(),
    {
        let content_length = body.as_str().as_bytes().len();
        Payload { header: JsonRpcHeaders::new(content_length), body }
    }

    /// The payload for what the JSON printer made of a message.
    pub fn from_printed(printed: Result<String, String>) -> (made: Result<Payload, EncodeError>)
        ensures
            is_printed_payload(
                match printed {
                    Ok(text) => Ok(text@),
                    Err(complaint) => Err(complaint@),
                },
                made,
            ),
    {
        match printed {
            Ok(text) => Ok(Payload::new(text)),
            Err(complaint) => Err(EncodeError::Serialize(complaint)),
        }
    }

    /// The payload of a message: the message is written as a JSON value, and
    /// the value is printed.
    pub fn try_new<M: MessageGroup>(message: &M) -> (made: Result<Payload, EncodeError>)
        ensures
            exists|json: Json| #[trigger]
                call_ensures(M::to_json, (message,), json) && is_printed_payload(
                    json_printed(json@),
                    made,
                ),
    {
        let json = message.to_json();
        let made = Payload::from_printed(json.print());
        assert(call_ensures(M::to_json, (message,), json) && is_printed_payload(
            json_printed(json@),
            made,
        ));
        made
    }

    /// The payload as it goes onto the wire: the header lines, the empty
    /// line, the body.
    pub fn to_bytes(&self) -> (bytes: Vec<u8>)
        ensures
            bytes@ == framed(self.header.content_length as nat, encode_utf8(self.body@)),
    {
        framed_bytes(&self.header, self.body.as_str().as_bytes())
    }

    /// The payload as text.
    pub fn to_string(&self) -> (text: String)
        ensures
            encode_utf8(text@) == framed(
                self.header.content_length as nat,
                encode_utf8(self.body@),
            ),
    {
        let bytes = self.to_bytes();
        proof {
            encode_utf8_valid_utf8(self.body@);
            lemma_framed_valid(self.header.content_length as nat, encode_utf8(self.body@));
        }
        text_of_valid(bytes.as_slice())
    }
}

} // verus!
