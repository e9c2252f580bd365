//! The custom scalar encodings: hardware addresses written as decimal
//! integers, and date-times with offset.

use crate::error::FormatError;
use vstd::prelude::*;
use vstd::string::*;

verus! {

/// `time::error::Parse`, the error of the `time` crate's parsers. It is only
/// carried from the parser to the place where it becomes a format error.
#[verifier::external_type_specification]
#[verifier::external_body]
pub struct ExTimeParseError(time::error::Parse);

pub open spec fn is_digit(c: char) -> bool {
    '0' <= c <= '9'
}

pub open spec fn all_digits(s: Seq<char>) -> bool {
    forall|i: int| 0 <= i < s.len() ==> is_digit(#[trigger] s[i])
}

/// The number that a run of decimal digits writes.
pub open spec fn digits_value(s: Seq<char>) -> nat
    decreases s.len(),
{
    if s.len() == 0 {
        0
    } else {
        (digits_value(s.drop_last()) * 10 + (s.last() as int - '0' as int)) as nat
    }
}

/// An unsigned 64-bit integer in decimal: one or more digits, after an
/// optional `+`, whose value fits.
pub open spec fn decimal_u64(s: Seq<char>) -> Option<u64> {
    if s.len() > 0 && s[0] == '+' {
        unsigned_u64(s.drop_first())
    } else {
        unsigned_u64(s)
    }
}

/// An unsigned 64-bit integer written as one or more digits.
pub open spec fn unsigned_u64(body: Seq<char>) -> Option<u64> {
    if body.len() > 0 && all_digits(body) && digits_value(body) <= u64::MAX {
        Some(digits_value(body) as u64)
    } else {
        None
    }
}

proof fn digits_value_grows(s: Seq<char>, k: int)
    requires
        all_digits(s),
        0 <= k <= s.len(),
    ensures
        digits_value(s.subrange(0, k)) <= digits_value(s),
    decreases s.len() - k,
{
    if k < s.len() {
        digits_value_grows(s, k + 1);
        let t = s.subrange(0, k + 1);
        assert(t.drop_last() =~= s.subrange(0, k));
        assert(is_digit(s[k]));
        assert(t.last() == s[k]);
    } else {
        assert(s.subrange(0, k) =~= s);
    }
}

pub fn parse_decimal(text: &str) -> (r: Option<u64>)
    ensures
        r == decimal_u64(text@),
{
    broadcast use is_ascii_spec_bytes;

    if !text.is_ascii() {
        proof {
            let s = text@;
            let i = choose|i: int| 0 <= i < s.len() && !('\0' <= #[trigger] s[i] <= '\u{7f}');
            assert(s[i] != '+' && !is_digit(s[i]));
            if s[0] == '+' {
                assert(s.drop_first()[i - 1] == s[i]);
            }
        }
        return None;
    }
    let bytes = text.as_bytes();
    let n = bytes.len();
    let start: usize = if n > 0 && bytes[0] == 43u8 {
        1
    } else {
        0
    };
    let ghost body = text@.subrange(start as int, n as int);
    proof {
        if start == 1 {
            assert(text@[0] as u8 == 43u8);
            assert(text@[0] == '+');
            assert(body =~= text@.drop_first());
        } else {
            assert(body =~= text@);
        }
    }
    assert(decimal_u64(text@) == unsigned_u64(body));
    if start == n {
        return None;
    }
    let mut acc: u64 = 0;
    let mut i: usize = start;
    while i < n
        invariant
            start <= i <= n,
            n == bytes@.len(),
            n == text@.len(),
            is_ascii(text),
            bytes@ == text.spec_bytes(),
            body == text@.subrange(start as int, n as int),
            decimal_u64(text@) == unsigned_u64(body),
            all_digits(body.subrange(0, i - start)),
            acc == digits_value(body.subrange(0, i - start)),
        decreases n - i,
    {
        let b = bytes[i];
        let ghost c = text@[i as int];
        assert(c as u8 == b);
        assert('\0' <= c <= '\u{7f}');
        let ghost grown = body.subrange(0, i - start + 1);
        assert(grown.drop_last() =~= body.subrange(0, i - start));
        assert(grown.last() == c);
        if b < 48u8 || b > 57u8 {
            assert(!is_digit(c));
            assert(body[i - start] == c);
            return None;
        }
        assert(is_digit(c));
        let d: u64 = (b - 48u8) as u64;
        assert(d == c as int - '0' as int);
        let wide = match acc.checked_mul(10) {
            Some(t) => t.checked_add(d),
            None => None,
        };
        match wide {
            Some(v) => {
                acc = v;
            },
            None => {
                proof {
                    assert(digits_value(grown) > u64::MAX);
                    if all_digits(body) {
                        digits_value_grows(body, i - start + 1);
                    }
                }
                return None;
            },
        }
        i = i + 1;
    }
    assert(body.subrange(0, i - start) =~= body);
    Some(acc)
}

/// A hardware address: six bytes, most significant first.
#[derive(Debug, Clone, Copy, PartialEq, Eq, PartialOrd, Ord, Hash)]
pub struct MacAddr(pub [u8; 6]);

/// The six low bytes of a value below 2^48, most significant first.
pub open spec fn address_bytes(v: int) -> Seq<u8> {
    seq![
        ((v / 0x100_0000_0000) % 256) as u8,
        ((v / 0x1_0000_0000) % 256) as u8,
        ((v / 0x100_0000) % 256) as u8,
        ((v / 0x1_0000) % 256) as u8,
        ((v / 0x100) % 256) as u8,
        (v % 256) as u8,
    ]
}

/// The address that a decimal string stands for.
pub open spec fn decode_address(text: Seq<char>) -> Result<Seq<u8>, FormatError> {
    match decimal_u64(text) {
        None => Err(FormatError::AddressDigits),
        Some(v) => if v < 0x1_0000_0000_0000 {
            Ok(address_bytes(v as int))
        } else {
            Err(FormatError::AddressRange)
        },
    }
}

impl MacAddr {
    pub open spec fn octets(self) -> Seq<u8> {
        self.0@
    }

    pub fn new(a: u8, b: u8, c: u8, d: u8, e: u8, f: u8) -> (r: MacAddr)
        ensures
            r.octets() == seq![a, b, c, d, e, f],
    {
        let r = MacAddr([a, b, c, d, e, f]);
        assert(r.0@ =~= seq![a, b, c, d, e, f]);
        r
    }

    /// The address held in the low 48 bits of `value`; a range error where
    /// one of the two high bytes is set.
    pub fn from_value(value: u64) -> (r: Result<MacAddr, FormatError>)
        ensures
            match r {
                Ok(m) => value < 0x1_0000_0000_0000 && m.octets() == address_bytes(value as int),
                Err(e) => value >= 0x1_0000_0000_0000 && e == FormatError::AddressRange,
            },
    {
        if value >= 0x1_0000_0000_0000 {
            return Err(FormatError::AddressRange);
        }
        let a: u8 = ((value / 0x100_0000_0000) % 256) as u8;
        let b: u8 = ((value / 0x1_0000_0000) % 256) as u8;
        let c: u8 = ((value / 0x100_0000) % 256) as u8;
        let d: u8 = ((value / 0x1_0000) % 256) as u8;
        let e: u8 = ((value / 0x100) % 256) as u8;
        let f: u8 = (value % 256) as u8;
        Ok(MacAddr::new(a, b, c, d, e, f))
    }

    /// Reads an address written as an unsigned 64-bit decimal integer.
    pub fn from_decimal(text: &str) -> (r: Result<MacAddr, FormatError>)
        ensures
            match r {
                Ok(m) => decode_address(text@) == Ok::<Seq<u8>, FormatError>(m.octets()),
                Err(e) => decode_address(text@) == Err::<Seq<u8>, FormatError>(e),
            },
    {
        match parse_decimal(text) {
            None => Err(FormatError::AddressDigits),
            Some(v) => MacAddr::from_value(v),
        }
    }
}

/// An instant with the offset it was written in: seconds since the Unix
/// epoch, the nanosecond within that second, and the offset from UTC in
/// seconds.
#[derive(Debug, Clone, Copy, PartialEq, Eq, Structural)]
pub struct Timestamp {
    pub unix_seconds: i64,
    pub nanosecond: u32,
    pub offset_seconds: i32,
}

/// The instant that the `time` crate reads from a text in the internet
/// date-time format, as (seconds since the epoch, nanosecond, offset in
/// seconds); `None` where it rejects the text.
pub uninterp spec fn rfc3339_instant(text: Seq<char>) -> Option<(i64, u32, i32)>;

/// Calls `time::OffsetDateTime::parse` with the `Rfc3339` description and
/// takes the instant apart with `unix_timestamp`, `nanosecond` and
/// `offset().whole_seconds()`. The contract only names the outcome.
#[verifier::external_body]
fn parse_rfc3339(text: &str) -> (r: Result<(i64, u32, i32), time::error::Parse>)
    ensures
        match r {
            Ok(parts) => rfc3339_instant(text@) == Some(parts),
            Err(_) => rfc3339_instant(text@) is None,
        },
{
    let format = time::format_description::well_known::Rfc3339;
    match time::OffsetDateTime::parse(text, &format) {
        Ok(t) => Ok((t.unix_timestamp(), t.nanosecond(), t.offset().whole_seconds())),
        Err(e) => Err(e),
    }
}

impl Timestamp {
    /// The timestamp that a text in the internet date-time format denotes.
    pub open spec fn of_text(text: Seq<char>) -> Result<Timestamp, FormatError> {
        match rfc3339_instant(text) {
            Some((unix_seconds, nanosecond, offset_seconds)) => Ok(
                Timestamp { unix_seconds, nanosecond, offset_seconds },
            ),
            None => Err(FormatError::DateTime),
        }
    }

    pub fn from_parts(unix_seconds: i64, nanosecond: u32, offset_seconds: i32) -> (r: Timestamp)
        ensures
            r == (Timestamp { unix_seconds, nanosecond, offset_seconds }),
    {
        Timestamp { unix_seconds, nanosecond, offset_seconds }
    }

    /// The second of the day that the timestamp shows in its own offset.
    pub open spec fn local_second(self) -> int {
        (self.unix_seconds + self.offset_seconds) % 86_400
    }

    pub fn second_of_day(&self) -> (r: u32)
        ensures
            r == self.local_second(),
            r < 86_400,
    {
        let local: i128 = self.unix_seconds as i128 + self.offset_seconds as i128;
        let lifted: i128 = local + 86_400i128 * 107_000_000_000_000i128;
        assert(lifted >= 0);
        assert(lifted % 86_400 == local % 86_400) by {
            assert(lifted == local + 86_400 * 107_000_000_000_000);
        }
        (lifted % 86_400i128) as u32
    }

    /// Reads a date-time with offset in the internet date-time format.
    pub fn parse(text: &str) -> (r: Result<Timestamp, FormatError>)
        ensures
            r == Timestamp::of_text(text@),
    {
        match parse_rfc3339(text) {
            Ok((unix_seconds, nanosecond, offset_seconds)) => Ok(
                Timestamp::from_parts(unix_seconds, nanosecond, offset_seconds),
            ),
            Err(_) => Err(FormatError::DateTime),
        }
    }
}

} // verus!
