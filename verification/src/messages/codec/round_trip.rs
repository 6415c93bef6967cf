//! What decoding makes of what encoding wrote.
//!
//! The header block is read by a header parser that the library does not
//! look into. These statements hold of any parser that finds in a frame the
//! header block that the library wrote into it.

use vstd::prelude::*;
use vstd::utf8::*;
use crate::json::JsonView;
use crate::messages::codec::decode::{
    frame_step, is_read, waiting_step, DecodeError, DecodeFault, FrameStep,
};
use crate::messages::codec::encode::frame;
use crate::messages::codec::scan::HeaderScanView;
use crate::messages::groups::AllMessages;
use crate::messages::payload::headers::{
    content_length_of, first_offending, header_lines, is_accepted_content_type, is_offending,
    is_recognised, lemma_first_offending_found, lemma_header_names_differ, position, validate,
    HeaderFault, HeaderView, CONTENT_LENGTH_HEADER_NAME, CONTENT_TYPE_HEADER_NAME,
    DEPRECATED_CONTENT_TYPE, JSON_RPC_CONTENT_TYPE,
};
use crate::text::{decimal_digits, lemma_decimal_digits_ascii, lemma_decimal_round_trip};

verus! {

/// The two headers that announce a body of `content_length` bytes, with the
/// content type spelled as `content_type` spells it.
pub open spec fn announcing_headers(content_length: nat, content_type: Seq<char>) -> Seq<
    HeaderView,
> {
    seq![
        HeaderView { name: CONTENT_LENGTH_HEADER_NAME@, value: decimal_digits(content_length) },
        HeaderView { name: CONTENT_TYPE_HEADER_NAME@, value: encode_utf8(content_type) },
    ]
}

/// How many bytes the header block of a frame takes: the header lines and
/// the empty line.
pub open spec fn header_block_len(content_length: nat) -> nat {
    header_lines(content_length).len() + 2
}

/// What a header parser finds in a frame that the library wrote for a body
/// of `content_length` bytes.
pub open spec fn written_scan(content_length: nat) -> HeaderScanView {
    HeaderScanView::Complete {
        consumed: header_block_len(content_length),
        headers: announcing_headers(content_length, JSON_RPC_CONTENT_TYPE@),
    }
}

/// The step that hands out `body` and leaves `rest` in the buffer.
pub open spec fn body_out(body: Seq<u8>, rest: Seq<u8>) -> FrameStep {
    FrameStep { outcome: Ok(Some(body)), known: None, rest }
}

/// A content length header and a content type header in either accepted
/// spelling announce the content length.
pub proof fn lemma_announcing_headers_validate(content_length: nat, content_type: Seq<char>)
    requires
        content_length <= usize::MAX,
        content_type == JSON_RPC_CONTENT_TYPE@ || content_type == DEPRECATED_CONTENT_TYPE@,
    ensures
        validate(announcing_headers(content_length, content_type)) == Ok::<nat, HeaderFault>(
            content_length,
        ),
{
    lemma_header_names_differ();
    lemma_decimal_round_trip(content_length, usize::MAX as nat);
    lemma_decimal_digits_ascii(content_length);
    reveal_with_fuel(position, 3);
    reveal_with_fuel(first_offending, 3);
    assert(content_length_of(decimal_digits(content_length)) == Ok::<nat, HeaderFault>(
        content_length,
    ));
}

/// Decoding the frame of a body hands out the body and leaves nothing; what
/// follows the frame in the buffer stays there.
pub proof fn lemma_frame_round_trip(body: Seq<u8>, following: Seq<u8>)
    requires
        body.len() <= usize::MAX,
    ensures
        frame_step(None, frame(body) + following, written_scan(body.len())) == body_out(
            body,
            following,
        ),
{
    let n = body.len();
    let buffer = frame(body) + following;
    lemma_announcing_headers_validate(n, JSON_RPC_CONTENT_TYPE@);
    let after = buffer.skip(header_block_len(n) as int);
    assert(after.take(n as int) =~= body);
    assert(after.skip(n as int) =~= following);
}

/// What a header parser finds in the first `cut` bytes of a frame that the
/// library wrote for a body of `content_length` bytes: a header block cut
/// short is incomplete, and a complete one is found as it was written.
pub open spec fn cut_scan(content_length: nat, cut: int) -> HeaderScanView {
    if cut < header_block_len(content_length) {
        HeaderScanView::Partial
    } else {
        written_scan(content_length)
    }
}

/// A frame that arrives in two pieces, cut at any place, is decoded once: the
/// call on the first piece asks for more bytes, and the call after the
/// second piece hands out the body.
pub proof fn lemma_streaming_decode(body: Seq<u8>, cut: int)
    requires
        body.len() <= usize::MAX,
        0 <= cut < frame(body).len(),
    ensures
        ({
            let first = frame_step(None, frame(body).take(cut), cut_scan(body.len(), cut));
            let second = frame_step(
                first.known,
                first.rest + frame(body).skip(cut),
                written_scan(body.len()),
            );
            &&& first.outcome == Ok::<Option<Seq<u8>>, DecodeFault>(None)
            &&& second == body_out(body, Seq::empty())
        }),
{
    let n = body.len();
    let whole = frame(body);
    let head = header_block_len(n) as int;
    lemma_frame_round_trip(body, Seq::empty());
    assert(whole.take(cut) + whole.skip(cut) =~= whole);
    if cut >= head {
        lemma_announcing_headers_validate(n, JSON_RPC_CONTENT_TYPE@);
        let held = whole.take(cut).skip(head);
        assert(held + whole.skip(cut) =~= body);
        assert(body.take(n as int) =~= body);
        assert(body.skip(n as int) =~= Seq::<u8>::empty());
    }
}

/// Two frames in one buffer are decoded in order: the first call hands out
/// the first body and leaves the second frame, the second call hands out the
/// second body and leaves nothing.
pub proof fn lemma_two_frames(first_body: Seq<u8>, second_body: Seq<u8>)
    requires
        first_body.len() <= usize::MAX,
        second_body.len() <= usize::MAX,
    ensures
        ({
            let first = frame_step(
                None,
                frame(first_body) + frame(second_body),
                written_scan(first_body.len()),
            );
            let second = frame_step(first.known, first.rest, written_scan(second_body.len()));
            &&& first == body_out(first_body, frame(second_body))
            &&& second == body_out(second_body, Seq::empty())
        }),
{
    lemma_frame_round_trip(first_body, frame(second_body));
    lemma_frame_round_trip(second_body, Seq::empty());
}

/// A second header of a known name is refused as a duplicate, and a header
/// of an unknown name as invalid, where no header before it offends.
pub proof fn lemma_offending_header_refused(headers: Seq<HeaderView>, i: int)
    requires
        0 <= i < headers.len(),
        first_offending(headers, i as nat).is_none(),
        is_offending(headers, i),
    ensures
        validate(headers) == Err::<nat, HeaderFault>(
            if is_recognised(headers[i].name) {
                HeaderFault::DuplicateOfValidHeader(headers[i].name)
            } else {
                HeaderFault::InvalidHeader(headers[i].name)
            },
        ),
{
    lemma_first_offending_found(headers, i);
}

/// A header block without headers, or with an accepted content type alone,
/// lacks the content length: the decoder asks for more bytes and changes
/// nothing.
pub proof fn lemma_missing_content_length_waits(
    buffer: Seq<u8>,
    consumed: nat,
    headers: Seq<HeaderView>,
)
    requires
        headers.len() == 0 || (headers.len() == 1 && headers[0].name
            == CONTENT_TYPE_HEADER_NAME@ && is_accepted_content_type(headers[0].value)),
    ensures
        validate(headers) == Err::<nat, HeaderFault>(HeaderFault::MissingContentLength),
        frame_step(None, buffer, HeaderScanView::Complete { consumed, headers }) == waiting_step(
            buffer,
        ),
{
    lemma_header_names_differ();
    reveal_with_fuel(position, 3);
    reveal_with_fuel(first_offending, 3);
}

/// What was written for a canonical message reads back as that message,
/// whatever the reading returns.
pub proof fn lemma_written_reads_back(
    message: AllMessages,
    json: JsonView,
    outcome: Result<AllMessages, DecodeError>,
)
    requires
        message.written_as(json),
        message.is_canonical(),
        is_read::<AllMessages>(Ok(json), outcome),
    ensures
        outcome matches Ok(found) && found@ == message@,
{
    message.lemma_round_trip(json);
}

} // verus!
