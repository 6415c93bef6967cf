//! Reading a header block off the front of a buffer.

use vstd::prelude::*;
use crate::messages::codec::MAX_HEADERS;
use crate::messages::payload::headers::{Header, HeaderView};

verus! {

/// What a look at the front of a buffer found.
#[derive(Debug)]
pub enum HeaderScan {
    /// The header block is not complete yet.
    Partial,
    /// A complete header block of `consumed` bytes, with its headers in order.
    Complete { consumed: usize, headers: Vec<Header> },
    /// The bytes are no header block; the text says why.
    Malformed(String),
}

/// The mathematical view of a `HeaderScan`.
pub enum HeaderScanView {
    Partial,
    Complete { consumed: nat, headers: Seq<HeaderView> },
    Malformed(Seq<char>),
}

impl View for HeaderScan {
    type V = HeaderScanView;

    open spec fn view(&self) -> HeaderScanView {
        match self {
            HeaderScan::Partial => HeaderScanView::Partial,
            HeaderScan::Complete { consumed, headers } => HeaderScanView::Complete {
                consumed: *consumed as nat,
                headers: headers@.map_values(|h: Header| h@),
            },
            HeaderScan::Malformed(text) => HeaderScanView::Malformed(text@),
        }
    }
}

impl HeaderScan {
    /// What the header parser finds at the front of `source`, with room for
    /// the two headers of the protocol.
    pub fn of(source: &[u8]) -> (scan: HeaderScan)
        ensures
            scan@ == scanned_headers(source@, MAX_HEADERS as nat),
            scan matches HeaderScan::Complete { consumed, .. } ==> consumed <= source@.len(),
    {
        scan_headers(source, MAX_HEADERS)
    }
}

/// What the header parser makes of `source` when it has room for `limit`
/// headers.
pub uninterp spec fn scanned_headers(source: Seq<u8>, limit: nat) -> HeaderScanView;

/// Parses the front of `source` with `httparse::parse_headers`, into at most
/// `limit` headers. The parser's verdict is taken as it comes; of a complete
/// block it is only claimed that it lies within `source`.
#[verifier::external_body]
pub(crate) fn scan_headers(source: &[u8], limit: usize) -> (scan: HeaderScan)
    ensures
        scan@ == scanned_headers(source@, limit as nat),
        scan matches HeaderScan::Complete { consumed, .. } ==> consumed <= source@.len(),
{
    let mut slots = vec![httparse::EMPTY_HEADER; limit];
    match httparse::parse_headers(source, &mut slots) {
        Ok(httparse::Status::Partial) => HeaderScan::Partial,
        Ok(httparse::Status::Complete((consumed, parsed))) => HeaderScan::Complete {
            consumed,
            headers: parsed
                .iter()
                .map(|h| Header { name: h.name.to_owned(), value: h.value.to_vec() })
                .collect(),
        },
        Err(error) => HeaderScan::Malformed(error.to_string()),
    }
}

} // verus!
