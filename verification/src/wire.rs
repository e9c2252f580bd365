//! The document's structure on bytes: whitespace, the punctuation of objects
//! and arrays and the three literals, which are read here, and numbers,
//! strings and values of no interest, which the JSON reader scans one at a
//! time.

use crate::error::{DecodeError, Failure};
use crate::input::{advances, agrees, ends_as};
use vstd::prelude::*;
use vstd::slice::slice_subrange;

verus! {

pub const SPACE: u8 = 0x20;

pub const TAB: u8 = 0x09;

pub const LINE_FEED: u8 = 0x0a;

pub const CARRIAGE_RETURN: u8 = 0x0d;

pub const COMMA: u8 = 0x2c;

pub const COLON: u8 = 0x3a;

pub const OPEN_BRACKET: u8 = 0x5b;

pub const CLOSE_BRACKET: u8 = 0x5d;

pub const OPEN_BRACE: u8 = 0x7b;

pub const CLOSE_BRACE: u8 = 0x7d;

/// What the JSON reader makes of a text that should start with an integer
/// that fits an `i64`. `None`: the text holds nothing but whitespace.
/// `Some(None)`: the reader rejects what it finds, with an error of its own.
/// Else the integer, and how many bytes it took from the text, leading
/// whitespace included.
pub uninterp spec fn json_integer(text: Seq<u8>) -> Option<Option<(i64, int)>>;

/// The same for a string: its characters after unescaping.
pub uninterp spec fn json_string(text: Seq<u8>) -> Option<Option<(Seq<char>, int)>>;

/// The same for a value of any kind that is read and thrown away: only the
/// number of bytes it took.
pub uninterp spec fn json_ignored(text: Seq<u8>) -> Option<Option<int>>;

/// Reads one `i64` from the front of `rest` with
/// `serde_json::StreamDeserializer::next` and asks `byte_offset` how far it
/// got. The contract only names the outcome, and tells an error of the reader
/// from a text that holds nothing.
#[verifier::external_body]
fn scan_integer(rest: &[u8]) -> (r: Option<Result<(i64, usize), serde_json::Error>>)
    ensures
        match r {
            Some(Ok((v, n))) => json_integer(rest@) == Some(Some((v, n as int))),
            Some(Err(_)) => json_integer(rest@) == Some(None::<(i64, int)>),
            None => json_integer(rest@) is None,
        },
{
    let mut stream = serde_json::Deserializer::from_slice(rest).into_iter::<i64>();
    match stream.next() {
        Some(Ok(v)) => Some(Ok((v, stream.byte_offset()))),
        Some(Err(e)) => Some(Err(e)),
        None => None,
    }
}

/// Reads one `String` from the front of `rest` with
/// `serde_json::StreamDeserializer::next` and asks `byte_offset` how far it
/// got. The contract only names the outcome, and tells an error of the reader
/// from a text that holds nothing.
#[verifier::external_body]
fn scan_string(rest: &[u8]) -> (r: Option<Result<(String, usize), serde_json::Error>>)
    ensures
        match r {
            Some(Ok((v, n))) => json_string(rest@) == Some(Some((v@, n as int))),
            Some(Err(_)) => json_string(rest@) == Some(None::<(Seq<char>, int)>),
            None => json_string(rest@) is None,
        },
{
    let mut stream = serde_json::Deserializer::from_slice(rest).into_iter::<String>();
    match stream.next() {
        Some(Ok(v)) => Some(Ok((v, stream.byte_offset()))),
        Some(Err(e)) => Some(Err(e)),
        None => None,
    }
}

/// Reads one value of any kind from the front of `rest` as
/// `serde::de::IgnoredAny` with `serde_json::StreamDeserializer::next` and
/// asks `byte_offset` how far it got. The contract only names the outcome,
/// and tells an error of the reader from a text that holds nothing.
#[verifier::external_body]
fn scan_ignored(rest: &[u8]) -> (r: Option<Result<usize, serde_json::Error>>)
    ensures
        match r {
            Some(Ok(n)) => json_ignored(rest@) == Some(Some(n as int)),
            Some(Err(_)) => json_ignored(rest@) == Some(None::<int>),
            None => json_ignored(rest@) is None,
        },
{
    let reader = serde_json::Deserializer::from_slice(rest);
    let mut stream = reader.into_iter::<serde::de::IgnoredAny>();
    match stream.next() {
        Some(Ok(_)) => Some(Ok(stream.byte_offset())),
        Some(Err(e)) => Some(Err(e)),
        None => None,
    }
}

pub open spec fn is_space(b: u8) -> bool {
    b == SPACE || b == LINE_FEED || b == TAB || b == CARRIAGE_RETURN
}

/// The first position at or after `pos` that holds no whitespace.
pub open spec fn skip_space(s: Seq<u8>, pos: int) -> int
    decreases s.len() - pos,
{
    if 0 <= pos < s.len() && is_space(s[pos]) {
        skip_space(s, pos + 1)
    } else {
        pos
    }
}

pub open spec fn byte_at(s: Seq<u8>, pos: int) -> Option<u8> {
    if 0 <= pos < s.len() {
        Some(s[pos])
    } else {
        None
    }
}

/// A scan that took at least one byte and stayed inside the text ends at
/// `pos + taken`; any other is a syntax error at `pos`, and the library's own.
pub open spec fn taken_from(len: nat, pos: int, taken: int) -> Result<int, Failure> {
    if 0 < taken && pos + taken <= len {
        Ok(pos + taken)
    } else {
        Err(Failure::Syntax { offset: pos, reader: false })
    }
}

pub open spec fn integer_at(s: Seq<u8>, pos: int) -> Result<(i64, int), Failure> {
    match json_integer(s.skip(pos)) {
        Some(Some((v, n))) => match taken_from(s.len(), pos, n) {
            Ok(end) => Ok((v, end)),
            Err(e) => Err(e),
        },
        Some(None) => Err(Failure::Syntax { offset: pos, reader: true }),
        None => Err(Failure::Syntax { offset: pos, reader: false }),
    }
}

pub open spec fn string_at(s: Seq<u8>, pos: int) -> Result<(Seq<char>, int), Failure> {
    match json_string(s.skip(pos)) {
        Some(Some((v, n))) => match taken_from(s.len(), pos, n) {
            Ok(end) => Ok((v, end)),
            Err(e) => Err(e),
        },
        Some(None) => Err(Failure::Syntax { offset: pos, reader: true }),
        None => Err(Failure::Syntax { offset: pos, reader: false }),
    }
}

/// Whether the three bytes from `pos` on are the ones given.
pub open spec fn three_at(s: Seq<u8>, pos: int, a: u8, b: u8, c: u8) -> bool {
    byte_at(s, pos) == Some(a) && byte_at(s, pos + 1) == Some(b) && byte_at(s, pos + 2) == Some(c)
}

/// `true` or `false`. A value that starts with neither `t` nor `f`, or does
/// not go on as the word does, is a syntax error.
pub open spec fn boolean_at(s: Seq<u8>, pos: int) -> Result<(bool, int), Failure> {
    if byte_at(s, pos) == Some(0x74u8) && three_at(s, pos + 1, 0x72, 0x75, 0x65) {
        Ok((true, pos + 4))
    } else if byte_at(s, pos) == Some(0x66u8) && byte_at(s, pos + 1) == Some(0x61u8) && three_at(
        s,
        pos + 2,
        0x6c,
        0x73,
        0x65,
    ) {
        Ok((false, pos + 5))
    } else {
        Err(Failure::Syntax { offset: pos, reader: false })
    }
}

pub open spec fn ignored_at(s: Seq<u8>, pos: int) -> Result<int, Failure> {
    match json_ignored(s.skip(pos)) {
        Some(Some(n)) => taken_from(s.len(), pos, n),
        Some(None) => Err(Failure::Syntax { offset: pos, reader: true }),
        None => Err(Failure::Syntax { offset: pos, reader: false }),
    }
}

/// Whether the value at `pos` is `null`: `None` where it does not start with
/// `n`, else the position after `null` or a syntax error.
pub open spec fn null_at(s: Seq<u8>, pos: int) -> Option<Result<int, Failure>> {
    if byte_at(s, pos) == Some(0x6eu8) {
        if three_at(s, pos + 1, 0x75, 0x6c, 0x6c) {
            Some(Ok(pos + 4))
        } else {
            Some(Err(Failure::Syntax { offset: pos, reader: false }))
        }
    } else {
        None
    }
}

/// After optional whitespace `open`; then whether the container has a first
/// item, and where: at that item, or after `close` where it is empty.
pub open spec fn open_container(s: Seq<u8>, pos: int, open: u8, close: u8) -> Result<
    (bool, int),
    Failure,
> {
    let p = skip_space(s, pos);
    if byte_at(s, p) == Some(open) {
        let q = skip_space(s, p + 1);
        if byte_at(s, q) == Some(close) {
            Ok((false, q + 1))
        } else {
            Ok((true, q))
        }
    } else {
        Err(Failure::Syntax { offset: p, reader: false })
    }
}

/// After an item: a comma and the next item's position, or `close` and the
/// position after it.
pub open spec fn after_item(s: Seq<u8>, pos: int, close: u8) -> Result<(bool, int), Failure> {
    let p = skip_space(s, pos);
    if byte_at(s, p) == Some(COMMA) {
        Ok((true, skip_space(s, p + 1)))
    } else if byte_at(s, p) == Some(close) {
        Ok((false, p + 1))
    } else {
        Err(Failure::Syntax { offset: p, reader: false })
    }
}

pub open spec fn open_object(s: Seq<u8>, pos: int) -> Result<(bool, int), Failure> {
    open_container(s, pos, OPEN_BRACE, CLOSE_BRACE)
}

pub open spec fn open_array(s: Seq<u8>, pos: int) -> Result<(bool, int), Failure> {
    open_container(s, pos, OPEN_BRACKET, CLOSE_BRACKET)
}

pub open spec fn after_member(s: Seq<u8>, pos: int) -> Result<(bool, int), Failure> {
    after_item(s, pos, CLOSE_BRACE)
}

pub open spec fn after_element(s: Seq<u8>, pos: int) -> Result<(bool, int), Failure> {
    after_item(s, pos, CLOSE_BRACKET)
}

/// A member's key, the colon after it, and the position of its value.
pub open spec fn key_at(s: Seq<u8>, pos: int) -> Result<(Seq<char>, int), Failure> {
    match string_at(s, pos) {
        Err(e) => Err(e),
        Ok((key, p)) => {
            let q = skip_space(s, p);
            if byte_at(s, q) == Some(COLON) {
                Ok((key, skip_space(s, q + 1)))
            } else {
                Err(Failure::Syntax { offset: q, reader: false })
            }
        },
    }
}

/// A syntax error at `offset` that carries the JSON reader's own error, where
/// there is one, as it came.
pub fn syntax_error(offset: usize, cause: Option<serde_json::Error>) -> (e: DecodeError)
    ensures
        e == (DecodeError::Syntax { offset, cause }),
        e@ == (Failure::Syntax { offset: offset as int, reader: cause is Some }),
{
    DecodeError::Syntax { offset, cause }
}

pub fn skip_whitespace(bytes: &[u8], pos: usize) -> (r: usize)
    requires
        pos <= bytes@.len(),
    ensures
        r == skip_space(bytes@, pos as int),
        pos <= r <= bytes@.len(),
{
    let n = bytes.len();
    let mut i: usize = pos;
    while i < n && (bytes[i] == SPACE || bytes[i] == LINE_FEED || bytes[i] == TAB || bytes[i]
        == CARRIAGE_RETURN)
        invariant
            pos <= i <= n,
            n == bytes@.len(),
            skip_space(bytes@, pos as int) == skip_space(bytes@, i as int),
        decreases n - i,
    {
        i = i + 1;
    }
    i
}

pub fn read_integer(bytes: &[u8], pos: usize) -> (r: Result<(i64, usize), DecodeError>)
    requires
        pos <= bytes@.len(),
    ensures
        agrees(r, integer_at(bytes@, pos as int)),
        advances(r, pos, bytes@.len()),
{
    let rest = slice_subrange(bytes, pos, bytes.len());
    match scan_integer(rest) {
        Some(Ok((v, n))) => {
            if 0 < n && n <= rest.len() {
                Ok((v, pos + n))
            } else {
                Err(syntax_error(pos, None))
            }
        },
        Some(Err(e)) => Err(syntax_error(pos, Some(e))),
        None => Err(syntax_error(pos, None)),
    }
}

pub fn read_string(bytes: &[u8], pos: usize) -> (r: Result<(String, usize), DecodeError>)
    requires
        pos <= bytes@.len(),
    ensures
        match r {
            Ok((v, end)) => string_at(bytes@, pos as int) == Ok::<(Seq<char>, int), Failure>(
                (v@, end as int),
            ) && pos < end <= bytes@.len(),
            Err(e) => string_at(bytes@, pos as int) == Err::<(Seq<char>, int), Failure>(e@),
        },
{
    let rest = slice_subrange(bytes, pos, bytes.len());
    match scan_string(rest) {
        Some(Ok((v, n))) => {
            if 0 < n && n <= rest.len() {
                Ok((v, pos + n))
            } else {
                Err(syntax_error(pos, None))
            }
        },
        Some(Err(e)) => Err(syntax_error(pos, Some(e))),
        None => Err(syntax_error(pos, None)),
    }
}

/// Whether the three bytes from `pos` on are the ones given.
fn has_three(bytes: &[u8], pos: usize, a: u8, b: u8, c: u8) -> (r: bool)
    requires
        pos <= bytes@.len(),
    ensures
        r == three_at(bytes@, pos as int, a, b, c),
        r ==> pos + 3 <= bytes@.len(),
{
    bytes.len() - pos >= 3 && bytes[pos] == a && bytes[pos + 1] == b && bytes[pos + 2] == c
}

/// Reads `true` or `false`.
pub fn read_boolean(bytes: &[u8], pos: usize) -> (r: Result<(bool, usize), DecodeError>)
    requires
        pos <= bytes@.len(),
    ensures
        agrees(r, boolean_at(bytes@, pos as int)),
        advances(r, pos, bytes@.len()),
{
    let n = bytes.len();
    if pos < n && bytes[pos] == 0x74u8 && has_three(bytes, pos + 1, 0x72, 0x75, 0x65) {
        Ok((true, pos + 4))
    } else if n - pos >= 2 && bytes[pos] == 0x66u8 && bytes[pos + 1] == 0x61u8 && has_three(
        bytes,
        pos + 2,
        0x6c,
        0x73,
        0x65,
    ) {
        Ok((false, pos + 5))
    } else {
        Err(syntax_error(pos, None))
    }
}

/// Reads past one value of any kind.
pub fn skip_value(bytes: &[u8], pos: usize) -> (r: Result<usize, DecodeError>)
    requires
        pos <= bytes@.len(),
    ensures
        ends_as(r, ignored_at(bytes@, pos as int)),
        r matches Ok(end) ==> pos < end <= bytes@.len(),
{
    let rest = slice_subrange(bytes, pos, bytes.len());
    match scan_ignored(rest) {
        Some(Ok(n)) => {
            if 0 < n && n <= rest.len() {
                Ok(pos + n)
            } else {
                Err(syntax_error(pos, None))
            }
        },
        Some(Err(e)) => Err(syntax_error(pos, Some(e))),
        None => Err(syntax_error(pos, None)),
    }
}

/// Tells a `null` from any other value: the position after `null`, or
/// nothing where another value stands.
pub fn read_null(bytes: &[u8], pos: usize) -> (r: Result<Option<usize>, DecodeError>)
    requires
        pos <= bytes@.len(),
    ensures
        match r {
            Ok(None) => null_at(bytes@, pos as int) is None,
            Ok(Some(end)) => null_at(bytes@, pos as int) == Some(Ok::<int, Failure>(end as int))
                && pos < end <= bytes@.len(),
            Err(e) => null_at(bytes@, pos as int) == Some(Err::<int, Failure>(e@)),
        },
{
    let n = bytes.len();
    if pos < n && bytes[pos] == 0x6eu8 {
        if has_three(bytes, pos + 1, 0x75, 0x6c, 0x6c) {
            Ok(Some(pos + 4))
        } else {
            Err(syntax_error(pos, None))
        }
    } else {
        Ok(None)
    }
}

fn enter(bytes: &[u8], pos: usize, open: u8, close: u8) -> (r: Result<(bool, usize), DecodeError>)
    requires
        pos <= bytes@.len(),
    ensures
        agrees(r, open_container(bytes@, pos as int, open, close)),
        advances(r, pos, bytes@.len()),
{
    let n = bytes.len();
    let p = skip_whitespace(bytes, pos);
    if p < n && bytes[p] == open {
        let q = skip_whitespace(bytes, p + 1);
        if q < n && bytes[q] == close {
            Ok((false, q + 1))
        } else {
            Ok((true, q))
        }
    } else {
        Err(syntax_error(p, None))
    }
}

fn leave_or_go_on(bytes: &[u8], pos: usize, close: u8) -> (r: Result<(bool, usize), DecodeError>)
    requires
        pos <= bytes@.len(),
    ensures
        agrees(r, after_item(bytes@, pos as int, close)),
        advances(r, pos, bytes@.len()),
{
    let n = bytes.len();
    let p = skip_whitespace(bytes, pos);
    if p < n && bytes[p] == COMMA {
        let q = skip_whitespace(bytes, p + 1);
        Ok((true, q))
    } else if p < n && bytes[p] == close {
        Ok((false, p + 1))
    } else {
        Err(syntax_error(p, None))
    }
}

pub fn enter_object(bytes: &[u8], pos: usize) -> (r: Result<(bool, usize), DecodeError>)
    requires
        pos <= bytes@.len(),
    ensures
        agrees(r, open_object(bytes@, pos as int)),
        advances(r, pos, bytes@.len()),
{
    enter(bytes, pos, OPEN_BRACE, CLOSE_BRACE)
}

pub fn enter_array(bytes: &[u8], pos: usize) -> (r: Result<(bool, usize), DecodeError>)
    requires
        pos <= bytes@.len(),
    ensures
        agrees(r, open_array(bytes@, pos as int)),
        advances(r, pos, bytes@.len()),
{
    enter(bytes, pos, OPEN_BRACKET, CLOSE_BRACKET)
}

pub fn next_member(bytes: &[u8], pos: usize) -> (r: Result<(bool, usize), DecodeError>)
    requires
        pos <= bytes@.len(),
    ensures
        agrees(r, after_member(bytes@, pos as int)),
        advances(r, pos, bytes@.len()),
{
    leave_or_go_on(bytes, pos, CLOSE_BRACE)
}

pub fn next_element(bytes: &[u8], pos: usize) -> (r: Result<(bool, usize), DecodeError>)
    requires
        pos <= bytes@.len(),
    ensures
        agrees(r, after_element(bytes@, pos as int)),
        advances(r, pos, bytes@.len()),
{
    leave_or_go_on(bytes, pos, CLOSE_BRACKET)
}

pub fn read_key(bytes: &[u8], pos: usize) -> (r: Result<(String, usize), DecodeError>)
    requires
        pos <= bytes@.len(),
    ensures
        match r {
            Ok((v, end)) => key_at(bytes@, pos as int) == Ok::<(Seq<char>, int), Failure>(
                (v@, end as int),
            ) && pos < end <= bytes@.len(),
            Err(e) => key_at(bytes@, pos as int) == Err::<(Seq<char>, int), Failure>(e@),
        },
{
    let (key, p) = read_string(bytes, pos)?;
    let q = skip_whitespace(bytes, p);
    if q < bytes.len() && bytes[q] == COLON {
        let v = skip_whitespace(bytes, q + 1);
        Ok((key, v))
    } else {
        Err(syntax_error(q, None))
    }
}

} // verus!
