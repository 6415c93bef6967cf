//! The header block of a framed message: the two headers the protocol knows,
//! how a parsed header list is validated, and how a header block is written.

use vstd::prelude::*;
use vstd::utf8::*;
use vstd::string::StringExecFns;
use crate::text::{
    bytes_eq, decimal_digits, decimal_text, lemma_ascii_valid, lemma_decimal_digits_ascii,
    lemma_valid_up_to_unique, parse_decimal, parse_usize, push_bytes, push_decimal, text_eq,
    text_of_valid, utf8_text, valid_up_to, IntParseError,
};

verus! {

// Not an official IANA media type.
pub const JSON_RPC_CONTENT_TYPE: &'static str = "application/vscode-jsonrpc; charset=utf-8";

// Earlier versions of the protocol spelled the charset without the hyphen.
pub const DEPRECATED_CONTENT_TYPE: &'static str = "application/vscode-jsonrpc; charset=utf8";

// The names of the two headers that the protocol knows.
pub const CONTENT_LENGTH_HEADER_NAME: &'static str = "Content-Length";

pub const CONTENT_TYPE_HEADER_NAME: &'static str = "Content-Type";

/// One parsed header line: its name, and its value with the surrounding
/// whitespace removed.
#[derive(Debug)]
pub struct Header {
    pub name: String,
    pub value: Vec<u8>,
}

/// The mathematical view of a `Header`.
pub struct HeaderView {
    pub name: Seq<char>,
    pub value: Seq<u8>,
}

impl View for Header {
    type V = HeaderView;

    open spec fn view(&self) -> HeaderView {
        HeaderView { name: self.name@, value: self.value@ }
    }
}

impl Header {
    pub fn new(name: &str, value: &[u8]) -> (header: Header)
        ensures
            header@ == (HeaderView { name: name@, value: value@ }),
    {
        let mut bytes: Vec<u8> = Vec::new();
        push_bytes(&mut bytes, value);
        Header { name: name.to_owned(), value: bytes }
    }
}

/// The views of a list of headers, in order.
pub open spec fn header_views(headers: Seq<Header>) -> Seq<HeaderView> {
    headers.map_values(|h: Header| h@)
}

/// The validated headers of one message.
#[derive(Debug)]
pub struct JsonRpcHeaders {
    pub content_length: usize,
}

/// Why a header list was refused.
#[derive(Debug)]
pub enum HeadersParseError {
    /// A header with a name the protocol does not know.
    InvalidHeader(String),
    /// A second header with a name the protocol knows.
    DuplicateOfValidHeader(String),
    /// A value that is not UTF-8, with the length of its longest valid prefix.
    Utf8(usize),
    /// A content type other than the two accepted ones.
    InvalidContentType(String),
    /// A content length that is no decimal number.
    ContentLength(IntParseError),
    /// No content length among the headers.
    MissingContentLength,
}

/// The mathematical view of a `HeadersParseError`.
pub enum HeaderFault {
    InvalidHeader(Seq<char>),
    DuplicateOfValidHeader(Seq<char>),
    Utf8(int),
    InvalidContentType(Seq<char>),
    ContentLength(IntParseError),
    MissingContentLength,
}

impl HeaderFault {
    /// What the fault says.
    pub open spec fn message(self) -> Seq<char> {
        match self {
            HeaderFault::InvalidHeader(name) => "invalid header: "@ + name,
            HeaderFault::DuplicateOfValidHeader(name) => "duplicate header: "@ + name,
            HeaderFault::Utf8(k) => "header value is not UTF-8 from byte "@ + decode_utf8(
                decimal_digits(k as nat),
            ),
            HeaderFault::InvalidContentType(text) => "invalid content type: "@ + text,
            HeaderFault::ContentLength(e) => "invalid content length: "@ + e.message(),
            HeaderFault::MissingContentLength => "missing content length"@,
        }
    }
}

impl HeadersParseError {
    /// What the error says, as text.
    pub fn to_string(&self) -> (text: String)
        ensures
            text@ == self@.message(),
    {
        match self {
            HeadersParseError::InvalidHeader(name) => {
                let mut text = "invalid header: ".to_owned();
                text.append(name.as_str());
                text
            },
            HeadersParseError::DuplicateOfValidHeader(name) => {
                let mut text = "duplicate header: ".to_owned();
                text.append(name.as_str());
                text
            },
            HeadersParseError::Utf8(k) => {
                let mut text = "header value is not UTF-8 from byte ".to_owned();
                text.append(decimal_text(*k).as_str());
                text
            },
            HeadersParseError::InvalidContentType(found) => {
                let mut text = "invalid content type: ".to_owned();
                text.append(found.as_str());
                text
            },
            HeadersParseError::ContentLength(e) => {
                let mut text = "invalid content length: ".to_owned();
                text.append(e.to_string().as_str());
                text
            },
            HeadersParseError::MissingContentLength => "missing content length".to_owned(),
        }
    }
}

impl View for HeadersParseError {
    type V = HeaderFault;

    open spec fn view(&self) -> HeaderFault {
        match self {
            HeadersParseError::InvalidHeader(name) => HeaderFault::InvalidHeader(name@),
            HeadersParseError::DuplicateOfValidHeader(name) => HeaderFault::DuplicateOfValidHeader(
                name@,
            ),
            HeadersParseError::Utf8(k) => HeaderFault::Utf8(*k as int),
            HeadersParseError::InvalidContentType(text) => HeaderFault::InvalidContentType(text@),
            HeadersParseError::ContentLength(e) => HeaderFault::ContentLength(*e),
            HeadersParseError::MissingContentLength => HeaderFault::MissingContentLength,
        }
    }
}

/// Whether the protocol knows a header of this name.
pub open spec fn is_recognised(name: Seq<char>) -> bool {
    name == CONTENT_LENGTH_HEADER_NAME@ || name == CONTENT_TYPE_HEADER_NAME@
}

/// The least index below `n` of a header called `name`.
pub open spec fn position(headers: Seq<HeaderView>, name: Seq<char>, n: nat) -> Option<int>
    decreases n,
{
    if n == 0 {
        None
    } else {
        match position(headers, name, (n - 1) as nat) {
            Some(j) => Some(j),
            None => if headers[n - 1].name == name {
                Some(n - 1)
            } else {
                None
            },
        }
    }
}

/// The value of the first header called `name`.
pub open spec fn value_of(headers: Seq<HeaderView>, name: Seq<char>) -> Option<Seq<u8>> {
    match position(headers, name, headers.len()) {
        Some(j) => Some(headers[j].value),
        None => None,
    }
}

/// A header offends when the protocol does not know its name, or when an
/// earlier header has the same name.
pub open spec fn is_offending(headers: Seq<HeaderView>, i: int) -> bool {
    !is_recognised(headers[i].name) || position(headers, headers[i].name, i as nat).is_some()
}

/// The least index below `n` of an offending header.
pub open spec fn first_offending(headers: Seq<HeaderView>, n: nat) -> Option<int>
    decreases n,
{
    if n == 0 {
        None
    } else {
        match first_offending(headers, (n - 1) as nat) {
            Some(i) => Some(i),
            None => if is_offending(headers, n - 1) {
                Some(n - 1)
            } else {
                None
            },
        }
    }
}

/// The two spellings of the content type that are accepted.
pub open spec fn is_accepted_content_type(value: Seq<u8>) -> bool {
    value == encode_utf8(JSON_RPC_CONTENT_TYPE@) || value == encode_utf8(DEPRECATED_CONTENT_TYPE@)
}

/// What the value of the content length header says.
pub open spec fn content_length_of(value: Seq<u8>) -> Result<nat, HeaderFault> {
    if !valid_utf8(value) {
        Err(HeaderFault::Utf8(valid_up_to(value)))
    } else {
        match parse_decimal(value, usize::MAX as nat) {
            Ok(n) => Ok(n),
            Err(e) => Err(HeaderFault::ContentLength(e)),
        }
    }
}

/// The content length that a header list announces, or why the list is
/// refused. The first offending header decides; then a content type that is
/// not accepted; then a missing or unreadable content length.
pub open spec fn validate(headers: Seq<HeaderView>) -> Result<nat, HeaderFault> {
    match first_offending(headers, headers.len()) {
        Some(i) => if is_recognised(headers[i].name) {
            Err(HeaderFault::DuplicateOfValidHeader(headers[i].name))
        } else {
            Err(HeaderFault::InvalidHeader(headers[i].name))
        },
        None => {
            let content_type = value_of(headers, CONTENT_TYPE_HEADER_NAME@);
            if content_type.is_some() && !is_accepted_content_type(content_type.unwrap()) {
                if valid_utf8(content_type.unwrap()) {
                    Err(HeaderFault::InvalidContentType(decode_utf8(content_type.unwrap())))
                } else {
                    Err(HeaderFault::Utf8(valid_up_to(content_type.unwrap())))
                }
            } else {
                match value_of(headers, CONTENT_LENGTH_HEADER_NAME@) {
                    None => Err(HeaderFault::MissingContentLength),
                    Some(value) => content_length_of(value),
                }
            }
        },
    }
}

/// One header line: the name, a colon and a space, the value, and the line end.
pub open spec fn header_line(name: Seq<char>, value: Seq<u8>) -> Seq<u8> {
    encode_utf8(name) + seq![58u8, 32u8] + value + seq![13u8, 10u8]
}

/// The header lines written for a body of `content_length` bytes, without the
/// empty line that ends the block.
pub open spec fn header_lines(content_length: nat) -> Seq<u8> {
    header_line(CONTENT_LENGTH_HEADER_NAME@, decimal_digits(content_length)) + header_line(
        CONTENT_TYPE_HEADER_NAME@,
        encode_utf8(JSON_RPC_CONTENT_TYPE@),
    )
}

/// A header line with a UTF-8 value is UTF-8.
pub proof fn lemma_header_line_valid(name: Seq<char>, value: Seq<u8>)
    requires
        valid_utf8(value),
    ensures
        valid_utf8(header_line(name, value)),
{
    let separator = seq![58u8, 32u8];
    let line_end = seq![13u8, 10u8];
    lemma_ascii_valid(separator);
    lemma_ascii_valid(line_end);
    encode_utf8_valid_utf8(name);
    valid_utf8_concat(encode_utf8(name), separator);
    valid_utf8_concat(encode_utf8(name) + separator, value);
    valid_utf8_concat(encode_utf8(name) + separator + value, line_end);
}

/// The header lines are UTF-8.
pub proof fn lemma_header_lines_valid(content_length: nat)
    ensures
        valid_utf8(header_lines(content_length)),
{
    lemma_decimal_digits_ascii(content_length);
    encode_utf8_valid_utf8(JSON_RPC_CONTENT_TYPE@);
    lemma_header_line_valid(CONTENT_LENGTH_HEADER_NAME@, decimal_digits(content_length));
    lemma_header_line_valid(CONTENT_TYPE_HEADER_NAME@, encode_utf8(JSON_RPC_CONTENT_TYPE@));
    valid_utf8_concat(
        header_line(CONTENT_LENGTH_HEADER_NAME@, decimal_digits(content_length)),
        header_line(CONTENT_TYPE_HEADER_NAME@, encode_utf8(JSON_RPC_CONTENT_TYPE@)),
    );
}

/// The two header names differ.
pub proof fn lemma_header_names_differ()
    ensures
        CONTENT_LENGTH_HEADER_NAME@ != CONTENT_TYPE_HEADER_NAME@,
{
    reveal_strlit("Content-Length");
    reveal_strlit("Content-Type");
    assert(CONTENT_TYPE_HEADER_NAME@.len() == 12);
}

/// Reads the value of the content length header.
fn read_content_length(value: &[u8]) -> (length: Result<usize, HeadersParseError>)
    ensures
        match length {
            Ok(n) => content_length_of(value@) == Ok::<nat, HeaderFault>(n as nat),
            Err(e) => content_length_of(value@) == Err::<nat, HeaderFault>(e@),
        },
{
    match utf8_text(value) {
        Err(k) => {
            proof {
                lemma_valid_up_to_unique(value@, k as int);
            }
            Err(HeadersParseError::Utf8(k))
        },
        Ok(_) => match parse_usize(value) {
            Ok(n) => Ok(n),
            Err(e) => Err(HeadersParseError::ContentLength(e)),
        },
    }
}

/// Checks the value of the content type header.
fn check_content_type(value: &[u8]) -> (checked: Result<(), HeadersParseError>)
    ensures
        match checked {
            Ok(_) => is_accepted_content_type(value@),
            Err(e) => !is_accepted_content_type(value@) && e@ == if valid_utf8(value@) {
                HeaderFault::InvalidContentType(decode_utf8(value@))
            } else {
                HeaderFault::Utf8(valid_up_to(value@))
            },
        },
{
    if bytes_eq(value, JSON_RPC_CONTENT_TYPE.as_bytes()) || bytes_eq(
        value,
        DEPRECATED_CONTENT_TYPE.as_bytes(),
    ) {
        return Ok(());
    }
    match utf8_text(value) {
        Ok(text) => Err(HeadersParseError::InvalidContentType(text)),
        Err(k) => {
            proof {
                lemma_valid_up_to_unique(value@, k as int);
            }
            Err(HeadersParseError::Utf8(k))
        },
    }
}

impl JsonRpcHeaders {
    pub fn new(content_length: usize) -> (headers: Self)
        ensures
            headers.content_length == content_length,
    {
        Self { content_length }
    }

    pub fn content_length(&self) -> (length: usize)
        ensures
            length == self.content_length,
    {
        self.content_length
    }

    /// Validates a parsed header list and takes the content length from it.
    pub fn try_from(headers: &[Header]) -> (validated: Result<Self, HeadersParseError>)
        ensures
            match validated {
                Ok(h) => validate(header_views(headers@)) == Ok::<nat, HeaderFault>(
                    h.content_length as nat,
                ),
                Err(e) => validate(header_views(headers@)) == Err::<nat, HeaderFault>(e@),
            },
    {
        let ghost views = header_views(headers@);
        let mut content_length_index: Option<usize> = None;
        let mut content_type_index: Option<usize> = None;
        let mut i: usize = 0;
        proof {
            lemma_header_names_differ();
        }
        while i < headers.len()
            invariant
                i <= headers@.len(),
                views == header_views(headers@),
                views.len() == headers@.len(),
                CONTENT_LENGTH_HEADER_NAME@ != CONTENT_TYPE_HEADER_NAME@,
                first_offending(views, i as nat).is_none(),
                match content_length_index {
                    Some(j) => position(views, CONTENT_LENGTH_HEADER_NAME@, i as nat) == Some(
                        j as int,
                    ) && j < i,
                    None => position(views, CONTENT_LENGTH_HEADER_NAME@, i as nat).is_none(),
                },
                match content_type_index {
                    Some(j) => position(views, CONTENT_TYPE_HEADER_NAME@, i as nat) == Some(
                        j as int,
                    ) && j < i,
                    None => position(views, CONTENT_TYPE_HEADER_NAME@, i as nat).is_none(),
                },
            decreases headers@.len() - i,
        {
            let header = &headers[i];
            if text_eq(header.name.as_str(), CONTENT_LENGTH_HEADER_NAME) {
                if content_length_index.is_some() {
                    proof {
                        lemma_first_offending_found(views, i as int);
                    }
                    return Err(HeadersParseError::DuplicateOfValidHeader(header.name.clone()));
                }
                content_length_index = Some(i);
            } else if text_eq(header.name.as_str(), CONTENT_TYPE_HEADER_NAME) {
                if content_type_index.is_some() {
                    proof {
                        lemma_first_offending_found(views, i as int);
                    }
                    return Err(HeadersParseError::DuplicateOfValidHeader(header.name.clone()));
                }
                content_type_index = Some(i);
            } else {
                proof {
                    lemma_first_offending_found(views, i as int);
                }
                return Err(HeadersParseError::InvalidHeader(header.name.clone()));
            }
            i += 1;
        }
        if let Some(j) = content_type_index {
            match check_content_type(headers[j].value.as_slice()) {
                Ok(_) => {},
                Err(e) => {
                    return Err(e);
                },
            }
        }
        match content_length_index {
            None => Err(HeadersParseError::MissingContentLength),
            Some(j) => {
                match read_content_length(headers[j].value.as_slice()) {
                    Ok(n) => Ok(JsonRpcHeaders { content_length: n }),
                    Err(e) => Err(e),
                }
            },
        }
    }

    /// The header lines for this content length, as text.
    pub fn to_string(&self) -> (text: String)
        ensures
            encode_utf8(text@) == header_lines(self.content_length as nat),
            text@ == decode_utf8(header_lines(self.content_length as nat)),
    {
        let bytes = self.to_bytes();
        proof {
            lemma_header_lines_valid(self.content_length as nat);
        }
        text_of_valid(bytes.as_slice())
    }

    /// The header lines for this content length, as bytes.
    pub fn to_bytes(&self) -> (bytes: Vec<u8>)
        ensures
            bytes@ == header_lines(self.content_length as nat),
    {
        let mut out: Vec<u8> = Vec::new();
        push_bytes(&mut out, CONTENT_LENGTH_HEADER_NAME.as_bytes());
        out.push(58);
        out.push(32);
        push_decimal(&mut out, self.content_length);
        out.push(13);
        out.push(10);
        push_bytes(&mut out, CONTENT_TYPE_HEADER_NAME.as_bytes());
        out.push(58);
        out.push(32);
        push_bytes(&mut out, JSON_RPC_CONTENT_TYPE.as_bytes());
        out.push(13);
        out.push(10);
        out
    }
}

/// When no header before `i` offends and header `i` does, `i` is the first
/// offending header of the whole list.
pub proof fn lemma_first_offending_found(headers: Seq<HeaderView>, i: int)
    requires
        0 <= i < headers.len(),
        first_offending(headers, i as nat).is_none(),
        is_offending(headers, i),
    ensures
        first_offending(headers, headers.len()) == Some(i),
{
    lemma_first_offending_stays(headers, i, headers.len());
}

proof fn lemma_first_offending_stays(headers: Seq<HeaderView>, i: int, n: nat)
    requires
        0 <= i < n <= headers.len(),
        first_offending(headers, i as nat).is_none(),
        is_offending(headers, i),
    ensures
        first_offending(headers, n) == Some(i),
    decreases n,
{
    if n > i + 1 {
        lemma_first_offending_stays(headers, i, (n - 1) as nat);
    }
}

} // verus!
