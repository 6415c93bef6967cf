//! Byte-level text helpers: comparison, UTF-8 conversion and decimal numbers.

use vstd::prelude::*;
use vstd::utf8::*;

verus! {

/// Why a decimal number could not be read.
#[derive(Clone, Copy, Debug, PartialEq, Eq, Structural)]
pub enum IntParseError {
    /// The text is empty.
    Empty,
    /// A character is no decimal digit.
    InvalidDigit,
    /// The number does not fit the target type.
    PosOverflow,
}

impl IntParseError {
    /// What the error says.
    pub open spec fn message(self) -> Seq<char> {
        match self {
            IntParseError::Empty => "cannot parse integer from empty string"@,
            IntParseError::InvalidDigit => "invalid digit found in string"@,
            IntParseError::PosOverflow => "number too large to fit in target type"@,
        }
    }

    /// What the error says, as text.
    pub fn to_string(&self) -> (text: String)
        ensures
            text@ == self.message(),
    {
        match self {
            IntParseError::Empty => "cannot parse integer from empty string".to_owned(),
            IntParseError::InvalidDigit => "invalid digit found in string".to_owned(),
            IntParseError::PosOverflow => "number too large to fit in target type".to_owned(),
        }
    }
}

/// Whether a byte is an ASCII digit.
pub open spec fn is_digit(b: u8) -> bool {
    48 <= b <= 57
}

/// The ASCII digits of `n` in base ten, most significant first, without
/// leading zeros.
pub open spec fn decimal_digits(n: nat) -> Seq<u8>
    decreases n,
{
    if n < 10 {
        seq![(48 + n) as u8]
    } else {
        decimal_digits(n / 10).push((48 + n % 10) as u8)
    }
}

/// Reads `digits` from left to right on top of the value `acc` read so far.
/// The first character that is no digit, or that takes the value above `max`,
/// ends the reading with its error.
pub open spec fn read_digits(digits: Seq<u8>, acc: nat, max: nat) -> Result<nat, IntParseError>
    decreases digits.len(),
{
    if digits.len() == 0 {
        Ok(acc)
    } else if !is_digit(digits[0]) {
        Err(IntParseError::InvalidDigit)
    } else if acc * 10 + (digits[0] - 48) > max {
        Err(IntParseError::PosOverflow)
    } else {
        read_digits(digits.skip(1), (acc * 10 + (digits[0] - 48)) as nat, max)
    }
}

/// What a decimal text denotes as an unsigned number of at most `max`: an
/// optional `+` followed by at least one digit.
pub open spec fn parse_decimal(text: Seq<u8>, max: nat) -> Result<nat, IntParseError> {
    if text.len() == 0 {
        Err(IntParseError::Empty)
    } else {
        let digits = if text[0] == 43 {
            text.skip(1)
        } else {
            text
        };
        if digits.len() == 0 {
            Err(IntParseError::InvalidDigit)
        } else {
            read_digits(digits, 0, max)
        }
    }
}

/// `k` is the length of the longest prefix of `bytes` that is valid UTF-8.
pub open spec fn is_valid_up_to(bytes: Seq<u8>, k: int) -> bool {
    &&& 0 <= k <= bytes.len()
    &&& valid_utf8(bytes.take(k))
    &&& forall|j: int| k < j <= bytes.len() ==> !valid_utf8(#[trigger] bytes.take(j))
}

/// The length of the longest prefix of `bytes` that is valid UTF-8.
pub open spec fn valid_up_to(bytes: Seq<u8>) -> int {
    choose|k: int| is_valid_up_to(bytes, k)
}

/// At most one length is that of the longest valid prefix.
pub proof fn lemma_valid_up_to_unique(bytes: Seq<u8>, k: int)
    requires
        is_valid_up_to(bytes, k),
    ensures
        valid_up_to(bytes) == k,
{
}

/// Appending one digit to a text that reads as `v` reads as `v * 10 + d`,
/// unless that is above `max`.
pub proof fn lemma_read_digits_push(digits: Seq<u8>, acc: nat, max: nat, d: u8)
    requires
        is_digit(d),
    ensures
        read_digits(digits.push(d), acc, max) == match read_digits(digits, acc, max) {
            Ok(v) => if v * 10 + (d - 48) > max {
                Err(IntParseError::PosOverflow)
            } else {
                Ok((v * 10 + (d - 48)) as nat)
            },
            Err(e) => Err(e),
        },
    decreases digits.len(),
{
    let longer = digits.push(d);
    if digits.len() == 0 {
        assert(read_digits(longer.skip(1), (acc * 10 + (d - 48)) as nat, max) == Ok::<
            nat,
            IntParseError,
        >((acc * 10 + (d - 48)) as nat));
    } else {
        assert(longer.skip(1) =~= digits.skip(1).push(d));
        if is_digit(digits[0]) && acc * 10 + (digits[0] - 48) <= max {
            lemma_read_digits_push(digits.skip(1), (acc * 10 + (digits[0] - 48)) as nat, max, d);
        }
    }
}

/// The digits of a number read back as that number.
pub proof fn lemma_decimal_round_trip(n: nat, max: nat)
    requires
        n <= max,
    ensures
        decimal_digits(n).len() > 0,
        decimal_digits(n)[0] != 43,
        parse_decimal(decimal_digits(n), max) == Ok::<nat, IntParseError>(n),
    decreases n,
{
    if n < 10 {
        let one = seq![(48 + n) as u8];
        assert(read_digits(one.skip(1), n, max) == Ok::<nat, IntParseError>(n));
    } else {
        lemma_decimal_round_trip(n / 10, max);
        let d = (48 + n % 10) as u8;
        lemma_read_digits_push(decimal_digits(n / 10), 0, max, d);
        assert((n / 10) * 10 + n % 10 == n) by (nonlinear_arith);
    }
}

/// Compares two byte slices element by element.
pub fn bytes_eq(a: &[u8], b: &[u8]) -> (same: bool)
    ensures
        same == (a@ == b@),
{
    if a.len() != b.len() {
        return false;
    }
    let mut i: usize = 0;
    while i < a.len()
        invariant
            a@.len() == b@.len(),
            i <= a@.len(),
            forall|k: int| 0 <= k < i ==> a@[k] == b@[k],
        decreases a@.len() - i,
    {
        if a[i] != b[i] {
            return false;
        }
        i += 1;
    }
    assert(a@ =~= b@);
    true
}

/// Whether two texts hold the same characters.
pub fn text_eq(a: &str, b: &str) -> (same: bool)
    ensures
        same == (a@ == b@),
{
    let same = bytes_eq(a.as_bytes(), b.as_bytes());
    proof {
        encode_utf8_decode_utf8(a@);
        encode_utf8_decode_utf8(b@);
    }
    same
}

/// Appends the decimal digits of `n` to `out`.
pub fn push_decimal(out: &mut Vec<u8>, n: usize)
    ensures
        final(out)@ == old(out)@ + decimal_digits(n as nat),
    decreases n,
{
    if n >= 10 {
        push_decimal(out, n / 10);
    }
    let digit: u8 = (n % 10) as u8;
    out.push(48 + digit);
}

/// Appends a copy of `bytes` to `out`.
pub fn push_bytes(out: &mut Vec<u8>, bytes: &[u8])
    ensures
        final(out)@ == old(out)@ + bytes@,
{
    let mut i: usize = 0;
    while i < bytes.len()
        invariant
            i <= bytes@.len(),
            out@ == old(out)@ + bytes@.take(i as int),
        decreases bytes@.len() - i,
    {
        out.push(bytes[i]);
        i += 1;
    }
}

/// Reads a decimal number as `str::parse::<usize>` reads it: an optional `+`,
/// then digits only, with a value that fits `usize`.
pub fn parse_usize(text: &[u8]) -> (number: Result<usize, IntParseError>)
    ensures
        match number {
            Ok(n) => parse_decimal(text@, usize::MAX as nat) == Ok::<nat, IntParseError>(n as nat),
            Err(e) => parse_decimal(text@, usize::MAX as nat) == Err::<nat, IntParseError>(e),
        },
{
    if text.len() == 0 {
        return Err(IntParseError::Empty);
    }
    let start: usize = if text[0] == 43 {
        1
    } else {
        0
    };
    if start == text.len() {
        return Err(IntParseError::InvalidDigit);
    }
    let ghost digits = text@.skip(start as int);
    let ghost max = usize::MAX as nat;
    assert(text@.skip(0) =~= text@);
    let mut acc: usize = 0;
    let mut i: usize = start;
    while i < text.len()
        invariant
            start <= i <= text@.len(),
            digits == text@.skip(start as int),
            max == usize::MAX as nat,
            parse_decimal(text@, max) == read_digits(digits, 0, max),
            read_digits(text@.skip(i as int), acc as nat, max) == read_digits(digits, 0, max),
        decreases text@.len() - i,
    {
        let b = text[i];
        let ghost rest = text@.skip(i as int);
        assert(rest.skip(1) =~= text@.skip(i + 1));
        if b < 48 || b > 57 {
            return Err(IntParseError::InvalidDigit);
        }
        let d: usize = (b - 48) as usize;
        if acc > (usize::MAX - d) / 10 {
            assert(acc * 10 + d > usize::MAX) by (nonlinear_arith)
                requires
                    acc > (usize::MAX - d) / 10,
                    d <= 9,
            ;
            return Err(IntParseError::PosOverflow);
        }
        assert(acc * 10 + d <= usize::MAX) by (nonlinear_arith)
            requires
                acc <= (usize::MAX - d) / 10,
                d <= 9,
        ;
        acc = acc * 10 + d;
        i += 1;
    }
    Ok(acc)
}

/// Whether every byte is an ASCII character.
pub open spec fn is_ascii_bytes(bytes: Seq<u8>) -> bool {
    forall|i: int| 0 <= i < bytes.len() ==> #[trigger] bytes[i] < 128
}

/// ASCII text is valid UTF-8.
pub proof fn lemma_ascii_valid(bytes: Seq<u8>)
    requires
        is_ascii_bytes(bytes),
    ensures
        valid_utf8(bytes),
{
    assert forall|i: int| 0 <= i < bytes.len() implies #[trigger] is_leading_byte_width_1(
        bytes[i],
    ) by {
    }
    partial_valid_utf8_extend_ascii_block(bytes, 0, bytes.len() as int);
    assert(bytes.subrange(0, bytes.len() as int) =~= bytes);
}

/// The digits of a number are ASCII text.
pub proof fn lemma_decimal_digits_ascii(n: nat)
    ensures
        is_ascii_bytes(decimal_digits(n)),
        valid_utf8(decimal_digits(n)),
    decreases n,
{
    if n >= 10 {
        lemma_decimal_digits_ascii(n / 10);
    }
    lemma_ascii_valid(decimal_digits(n));
}

/// The text that valid UTF-8 bytes encode.
pub(crate) fn text_of_valid(bytes: &[u8]) -> (text: String)
    requires
        valid_utf8(bytes@),
    ensures
        text@ == decode_utf8(bytes@),
        encode_utf8(text@) == bytes@,
{
    proof {
        decode_utf8_encode_utf8(bytes@);
    }
    match utf8_text(bytes) {
        Ok(text) => text,
        Err(_) => String::new(),
    }
}

/// The decimal digits of `n` as text.
pub fn decimal_text(n: usize) -> (text: String)
    ensures
        text@ == decode_utf8(decimal_digits(n as nat)),
        encode_utf8(text@) == decimal_digits(n as nat),
{
    let mut digits: Vec<u8> = Vec::new();
    push_decimal(&mut digits, n);
    proof {
        lemma_decimal_digits_ascii(n as nat);
    }
    text_of_valid(digits.as_slice())
}

/// Decodes `bytes` as UTF-8 with `std::str::from_utf8`: the decoded text where
/// the bytes are valid, and else the length of their longest valid prefix, as
/// `Utf8Error::valid_up_to` gives it.
#[verifier::external_body]
pub(crate) fn utf8_text(bytes: &[u8]) -> (text: Result<String, usize>)
    ensures
        match text {
            Ok(s) => valid_utf8(bytes@) && s@ == decode_utf8(bytes@),
            Err(k) => !valid_utf8(bytes@) && is_valid_up_to(bytes@, k as int),
        },
{
    match std::str::from_utf8(bytes) {
        Ok(s) => Ok(s.to_owned()),
        Err(e) => Err(e.valid_up_to()),
    }
}

} // verus!
