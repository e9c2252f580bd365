//! Values of the kinds that the records' fields hold, read at a position, and
//! the two shapes that every structure shares: a list and an object.

use crate::codec::{decode_address, MacAddr, Timestamp};
use crate::error::{DecodeError, Failure, FormatError};
use crate::tokens::{ActivityType, DeviceDesignation, FormFactor, PlatformType, Source, TokenSet};
use crate::input::{advances, agrees, Input};
use vstd::prelude::*;

verus! {

/// An integer out of its field's range is a format error that names the field.
pub open spec fn out_of_range(field: Seq<char>) -> Failure {
    Failure::Format { field, reason: FormatError::IntegerRange }
}

/// An integer as the `i32` that a field holds, where it fits.
pub open spec fn narrowed_i32(n: i64, field: Seq<char>) -> Result<i32, Failure> {
    if i32::MIN as int <= n <= i32::MAX as int {
        Ok(n as i32)
    } else {
        Err(out_of_range(field))
    }
}

pub open spec fn i32_at<S: Input>(s: S, pos: int, field: Seq<char>) -> Result<(i32, int), Failure> {
    match s.integer_at(pos) {
        Err(e) => Err(e),
        Ok((n, end)) => match narrowed_i32(n, field) {
            Ok(v) => Ok((v, end)),
            Err(e) => Err(e),
        },
    }
}

/// An integer as the `u32` that a field holds, where it fits.
pub open spec fn narrowed_u32(n: i64, field: Seq<char>) -> Result<u32, Failure> {
    if 0 <= n <= u32::MAX as int {
        Ok(n as u32)
    } else {
        Err(out_of_range(field))
    }
}

pub open spec fn u32_at<S: Input>(s: S, pos: int, field: Seq<char>) -> Result<(u32, int), Failure> {
    match s.integer_at(pos) {
        Err(e) => Err(e),
        Ok((n, end)) => match narrowed_u32(n, field) {
            Ok(v) => Ok((v, end)),
            Err(e) => Err(e),
        },
    }
}

/// An integer as the `u16` that a field holds, where it fits.
pub open spec fn narrowed_u16(n: i64, field: Seq<char>) -> Result<u16, Failure> {
    if 0 <= n <= u16::MAX as int {
        Ok(n as u16)
    } else {
        Err(out_of_range(field))
    }
}

pub open spec fn u16_at<S: Input>(s: S, pos: int, field: Seq<char>) -> Result<(u16, int), Failure> {
    match s.integer_at(pos) {
        Err(e) => Err(e),
        Ok((n, end)) => match narrowed_u16(n, field) {
            Ok(v) => Ok((v, end)),
            Err(e) => Err(e),
        },
    }
}

/// An integer as the `u8` that a field holds, where it fits.
pub open spec fn narrowed_u8(n: i64, field: Seq<char>) -> Result<u8, Failure> {
    if 0 <= n <= u8::MAX as int {
        Ok(n as u8)
    } else {
        Err(out_of_range(field))
    }
}

pub open spec fn u8_at<S: Input>(s: S, pos: int, field: Seq<char>) -> Result<(u8, int), Failure> {
    match s.integer_at(pos) {
        Err(e) => Err(e),
        Ok((n, end)) => match narrowed_u8(n, field) {
            Ok(v) => Ok((v, end)),
            Err(e) => Err(e),
        },
    }
}

/// An integer as the `i8` that a field holds, where it fits.
pub open spec fn narrowed_i8(n: i64, field: Seq<char>) -> Result<i8, Failure> {
    if i8::MIN as int <= n <= i8::MAX as int {
        Ok(n as i8)
    } else {
        Err(out_of_range(field))
    }
}

pub open spec fn i8_at<S: Input>(s: S, pos: int, field: Seq<char>) -> Result<(i8, int), Failure> {
    match s.integer_at(pos) {
        Err(e) => Err(e),
        Ok((n, end)) => match narrowed_i8(n, field) {
            Ok(v) => Ok((v, end)),
            Err(e) => Err(e),
        },
    }
}

/// A date-time with offset, written as a string.
pub open spec fn timestamp_at<S: Input>(s: S, pos: int, field: Seq<char>) -> Result<
    (Timestamp, int),
    Failure,
> {
    match s.string_at(pos) {
        Err(e) => Err(e),
        Ok((text, end)) => match Timestamp::of_text(text) {
            Ok(t) => Ok((t, end)),
            Err(reason) => Err(Failure::Format { field, reason }),
        },
    }
}

/// A hardware address, written as a string that holds a decimal integer.
pub open spec fn address_at<S: Input>(s: S, pos: int, field: Seq<char>) -> Result<
    (Seq<u8>, int),
    Failure,
> {
    match s.string_at(pos) {
        Err(e) => Err(e),
        Ok((text, end)) => match decode_address(text) {
            Ok(octets) => Ok((octets, end)),
            Err(reason) => Err(Failure::Format { field, reason }),
        },
    }
}

/// A token of an enumerated field: the variant, or the offending token.
pub open spec fn token_at<S: Input, T>(
    s: S,
    pos: int,
    set: TokenSet,
    variant: spec_fn(Seq<char>) -> Option<T>,
) -> Result<
    (T, int),
    Failure,
> {
    match s.string_at(pos) {
        Err(e) => Err(e),
        Ok((token, end)) => match variant(token) {
            Some(v) => Ok((v, end)),
            None => Err(Failure::UnknownVariant { set, token }),
        },
    }
}

pub open spec fn source_at<S: Input>(s: S, pos: int) -> Result<(Source, int), Failure> {
    token_at(s, pos, TokenSet::Source, |t: Seq<char>| Source::of_wire(t))
}

pub open spec fn activity_type_at<S: Input>(s: S, pos: int) -> Result<
    (ActivityType, int),
    Failure,
> {
    token_at(s, pos, TokenSet::ActivityType, |t: Seq<char>| ActivityType::of_wire(t))
}

pub open spec fn device_designation_at<S: Input>(s: S, pos: int) -> Result<
    (DeviceDesignation, int),
    Failure,
> {
    token_at(s, pos, TokenSet::DeviceDesignation, |t: Seq<char>| DeviceDesignation::of_wire(t))
}

pub open spec fn platform_type_at<S: Input>(s: S, pos: int) -> Result<
    (PlatformType, int),
    Failure,
> {
    token_at(s, pos, TokenSet::PlatformType, |t: Seq<char>| PlatformType::of_wire(t))
}

pub open spec fn form_factor_at<S: Input>(s: S, pos: int) -> Result<(FormFactor, int), Failure> {
    token_at(s, pos, TokenSet::FormFactor, |t: Seq<char>| FormFactor::of_wire(t))
}

/// A value that may be `null`: nothing where it is, else the value itself.
pub open spec fn optional<T>(
    null: Option<Result<int, Failure>>,
    value: Result<(T, int), Failure>,
) -> Result<
    (Option<T>, int),
    Failure,
> {
    match null {
        Some(Ok(end)) => Ok((None, end)),
        Some(Err(e)) => Err(e),
        None => match value {
            Ok((v, end)) => Ok((Some(v), end)),
            Err(e) => Err(e),
        },
    }
}

/// The value for a field that has not come yet; a second occurrence of the
/// field is an error before its value is looked at.
pub open spec fn fresh<S, T>(
    slot: Option<S>,
    name: Seq<char>,
    value: Result<(T, int), Failure>,
) -> Result<
    (T, int),
    Failure,
> {
    if slot is Some {
        Err(Failure::DuplicateField { name })
    } else {
        value
    }
}

/// The items of a list from the first on, each read by `item`, added to the
/// ones that came before.
pub open spec fn list_from<S: Input, T>(
    s: S,
    pos: int,
    before: Seq<T>,
    item: spec_fn(S, int) -> Result<(T, int), Failure>,
) -> Result<(Seq<T>, int), Failure>
    decreases s.extent() - pos,
{
    match item(s, pos) {
        Err(e) => Err(e),
        Ok((v, p)) => match s.after_element(p) {
            Err(e) => Err(e),
            Ok((more, q)) => if !more {
                Ok((before.push(v), q))
            } else if pos < q <= s.extent() {
                list_from(s, q, before.push(v), item)
            } else {
                Err(Failure::Syntax { offset: q, reader: false })
            },
        },
    }
}

/// A whole list: `[`, the items with commas between them, `]`.
pub open spec fn list_at<S: Input, T>(
    s: S,
    pos: int,
    item: spec_fn(S, int) -> Result<(T, int), Failure>,
) -> Result<(Seq<T>, int), Failure> {
    match s.open_array(pos) {
        Err(e) => Err(e),
        Ok((some, p)) => if some {
            list_from(s, p, Seq::empty(), item)
        } else {
            Ok((Seq::empty(), p))
        },
    }
}

/// The members of an object from one key on. `field` takes the value of the
/// member with the given key into what was gathered so far.
pub open spec fn members_from<S: Input, D>(
    s: S,
    pos: int,
    gathered: D,
    field: spec_fn(S, int, Seq<char>, D) -> Result<(D, int), Failure>,
) -> Result<(D, int), Failure>
    decreases s.extent() - pos,
{
    match s.key_at(pos) {
        Err(e) => Err(e),
        Ok((key, at)) => match field(s, at, key, gathered) {
            Err(e) => Err(e),
            Ok((next, p)) => match s.after_member(p) {
                Err(e) => Err(e),
                Ok((more, q)) => if !more {
                    Ok((next, q))
                } else if pos < q <= s.extent() {
                    members_from(s, q, next, field)
                } else {
                    Err(Failure::Syntax { offset: q, reader: false })
                },
            },
        },
    }
}

/// A whole object: `{`, the members with commas between them, `}`.
pub open spec fn object_at<S: Input, D>(
    s: S,
    pos: int,
    empty: D,
    field: spec_fn(S, int, Seq<char>, D) -> Result<(D, int), Failure>,
) -> Result<(D, int), Failure> {
    match s.open_object(pos) {
        Err(e) => Err(e),
        Ok((some, p)) => if some {
            members_from(s, p, empty, field)
        } else {
            Ok((empty, p))
        },
    }
}

/// What is gathered from an object, made into the value it describes.
pub open spec fn finished<D, T>(
    gathered: Result<(D, int), Failure>,
    finish: spec_fn(D) -> Result<T, Failure>,
) -> Result<
    (T, int),
    Failure,
> {
    match gathered {
        Err(e) => Err(e),
        Ok((d, end)) => match finish(d) {
            Ok(v) => Ok((v, end)),
            Err(e) => Err(e),
        },
    }
}

/// A required field's value, or the error that names the field.
pub open spec fn required<T>(slot: Option<T>, name: Seq<char>) -> Result<T, Failure> {
    match slot {
        Some(v) => Ok(v),
        None => Err(Failure::MissingField { name }),
    }
}

/// An optional field's value: nothing where the field never came.
pub open spec fn defaulted<T>(slot: Option<Option<T>>) -> Option<T> {
    match slot {
        Some(v) => v,
        None => None,
    }
}

/// An executable scan agrees with its description, the value taken by its
/// deep view.
pub open spec fn agrees_deep<T: DeepView>(
    r: Result<(T, usize), DecodeError>,
    s: Result<(T::V, int), Failure>,
) -> bool {
    match r {
        Ok((v, end)) => s == Ok::<(T::V, int), Failure>((v.deep_view(), end as int)),
        Err(e) => s == Err::<(T::V, int), Failure>(e@),
    }
}

/// The same for a step that yields only a value.
pub open spec fn yields_deep<T: DeepView>(
    r: Result<T, DecodeError>,
    s: Result<T::V, Failure>,
) -> bool {
    match r {
        Ok(v) => s == Ok::<T::V, Failure>(v.deep_view()),
        Err(e) => s == Err::<T::V, Failure>(e@),
    }
}

pub fn duplicate_field(name: &'static str) -> (e: DecodeError)
    ensures
        e@ == (Failure::DuplicateField { name: name@ }),
{
    DecodeError::DuplicateField { name }
}

pub fn missing_field(name: &'static str) -> (e: DecodeError)
    ensures
        e@ == (Failure::MissingField { name: name@ }),
{
    DecodeError::MissingField { name }
}

pub fn unknown_field(key: String) -> (e: DecodeError)
    ensures
        e@ == (Failure::UnknownField { key: key@ }),
{
    DecodeError::UnknownField { key }
}

/// Holds an integer to the range of `i32`.
pub fn narrow_i32(n: i64, field: &'static str) -> (r: Result<i32, DecodeError>)
    ensures
        match r {
            Ok(v) => narrowed_i32(n, field@) == Ok::<i32, Failure>(v),
            Err(e) => narrowed_i32(n, field@) == Err::<i32, Failure>(e@),
        },
{
    if -0x8000_0000i64 <= n && n <= 0x7fff_ffffi64 {
        Ok(n as i32)
    } else {
        Err(DecodeError::Format { field, reason: FormatError::IntegerRange })
    }
}

/// Holds an integer to the range of `u32`.
pub fn narrow_u32(n: i64, field: &'static str) -> (r: Result<u32, DecodeError>)
    ensures
        match r {
            Ok(v) => narrowed_u32(n, field@) == Ok::<u32, Failure>(v),
            Err(e) => narrowed_u32(n, field@) == Err::<u32, Failure>(e@),
        },
{
    if 0i64 <= n && n <= 0xffff_ffffi64 {
        Ok(n as u32)
    } else {
        Err(DecodeError::Format { field, reason: FormatError::IntegerRange })
    }
}

/// Holds an integer to the range of `u16`.
pub fn narrow_u16(n: i64, field: &'static str) -> (r: Result<u16, DecodeError>)
    ensures
        match r {
            Ok(v) => narrowed_u16(n, field@) == Ok::<u16, Failure>(v),
            Err(e) => narrowed_u16(n, field@) == Err::<u16, Failure>(e@),
        },
{
    if 0i64 <= n && n <= 0xffffi64 {
        Ok(n as u16)
    } else {
        Err(DecodeError::Format { field, reason: FormatError::IntegerRange })
    }
}

/// Holds an integer to the range of `u8`.
pub fn narrow_u8(n: i64, field: &'static str) -> (r: Result<u8, DecodeError>)
    ensures
        match r {
            Ok(v) => narrowed_u8(n, field@) == Ok::<u8, Failure>(v),
            Err(e) => narrowed_u8(n, field@) == Err::<u8, Failure>(e@),
        },
{
    if 0i64 <= n && n <= 0xffi64 {
        Ok(n as u8)
    } else {
        Err(DecodeError::Format { field, reason: FormatError::IntegerRange })
    }
}

/// Holds an integer to the range of `i8`.
pub fn narrow_i8(n: i64, field: &'static str) -> (r: Result<i8, DecodeError>)
    ensures
        match r {
            Ok(v) => narrowed_i8(n, field@) == Ok::<i8, Failure>(v),
            Err(e) => narrowed_i8(n, field@) == Err::<i8, Failure>(e@),
        },
{
    if -0x80i64 <= n && n <= 0x7fi64 {
        Ok(n as i8)
    } else {
        Err(DecodeError::Format { field, reason: FormatError::IntegerRange })
    }
}

/// Reads an integer that fits `i32`.
pub fn read_i32<S: Input>(source: &S, pos: usize, field: &'static str) -> (r: Result<
    (i32, usize),
    DecodeError,
>)
    requires
        pos <= source.extent(),
    ensures
        agrees(r, i32_at(*source, pos as int, field@)),
        advances(r, pos, source.extent()),
{
    let (n, end) = source.read_integer(pos)?;
    let v = narrow_i32(n, field)?;
    Ok((v, end))
}

/// Reads an integer that fits `u32`.
pub fn read_u32<S: Input>(source: &S, pos: usize, field: &'static str) -> (r: Result<
    (u32, usize),
    DecodeError,
>)
    requires
        pos <= source.extent(),
    ensures
        agrees(r, u32_at(*source, pos as int, field@)),
        advances(r, pos, source.extent()),
{
    let (n, end) = source.read_integer(pos)?;
    let v = narrow_u32(n, field)?;
    Ok((v, end))
}

/// Reads an integer that fits `u16`.
pub fn read_u16<S: Input>(source: &S, pos: usize, field: &'static str) -> (r: Result<
    (u16, usize),
    DecodeError,
>)
    requires
        pos <= source.extent(),
    ensures
        agrees(r, u16_at(*source, pos as int, field@)),
        advances(r, pos, source.extent()),
{
    let (n, end) = source.read_integer(pos)?;
    let v = narrow_u16(n, field)?;
    Ok((v, end))
}

/// Reads an integer that fits `u8`.
pub fn read_u8<S: Input>(source: &S, pos: usize, field: &'static str) -> (r: Result<
    (u8, usize),
    DecodeError,
>)
    requires
        pos <= source.extent(),
    ensures
        agrees(r, u8_at(*source, pos as int, field@)),
        advances(r, pos, source.extent()),
{
    let (n, end) = source.read_integer(pos)?;
    let v = narrow_u8(n, field)?;
    Ok((v, end))
}

/// Reads an integer that fits `i8`.
pub fn read_i8<S: Input>(source: &S, pos: usize, field: &'static str) -> (r: Result<
    (i8, usize),
    DecodeError,
>)
    requires
        pos <= source.extent(),
    ensures
        agrees(r, i8_at(*source, pos as int, field@)),
        advances(r, pos, source.extent()),
{
    let (n, end) = source.read_integer(pos)?;
    let v = narrow_i8(n, field)?;
    Ok((v, end))
}

/// Reads a date-time with offset.
pub fn read_timestamp<S: Input>(source: &S, pos: usize, field: &'static str) -> (r: Result<
    (Timestamp, usize),
    DecodeError,
>)
    requires
        pos <= source.extent(),
    ensures
        agrees(r, timestamp_at(*source, pos as int, field@)),
        advances(r, pos, source.extent()),
{
    let (text, end) = source.read_string(pos)?;
    match Timestamp::parse(text.as_str()) {
        Ok(t) => Ok((t, end)),
        Err(reason) => Err(DecodeError::Format { field, reason }),
    }
}

/// Reads a hardware address.
pub fn read_address<S: Input>(source: &S, pos: usize, field: &'static str) -> (r: Result<
    (MacAddr, usize),
    DecodeError,
>)
    requires
        pos <= source.extent(),
    ensures
        match r {
            Ok((m, end)) => address_at(*source, pos as int, field@) == Ok::<(Seq<u8>, int), Failure>(
                (m.octets(), end as int),
            ) && pos < end <= source.extent(),
            Err(e) => address_at(*source, pos as int, field@) == Err::<(Seq<u8>, int), Failure>(e@),
        },
{
    let (text, end) = source.read_string(pos)?;
    match MacAddr::from_decimal(text.as_str()) {
        Ok(m) => Ok((m, end)),
        Err(reason) => Err(DecodeError::Format { field, reason }),
    }
}

/// Reads the token of a source.
pub fn read_source<S: Input>(source: &S, pos: usize) -> (r: Result<(Source, usize), DecodeError>)
    requires
        pos <= source.extent(),
    ensures
        agrees(r, source_at(*source, pos as int)),
        advances(r, pos, source.extent()),
{
    let (token, end) = source.read_string(pos)?;
    match Source::from_token(token.as_str()) {
        Some(v) => Ok((v, end)),
        None => Err(DecodeError::UnknownVariant { set: TokenSet::Source, token }),
    }
}

/// Reads the token of an activity.
pub fn read_activity_type<S: Input>(source: &S, pos: usize) -> (r: Result<
    (ActivityType, usize),
    DecodeError,
>)
    requires
        pos <= source.extent(),
    ensures
        agrees(r, activity_type_at(*source, pos as int)),
        advances(r, pos, source.extent()),
{
    let (token, end) = source.read_string(pos)?;
    match ActivityType::from_token(token.as_str()) {
        Some(v) => Ok((v, end)),
        None => Err(DecodeError::UnknownVariant { set: TokenSet::ActivityType, token }),
    }
}

/// Reads the token of a device designation.
pub fn read_device_designation<S: Input>(source: &S, pos: usize) -> (r: Result<
    (DeviceDesignation, usize),
    DecodeError,
>)
    requires
        pos <= source.extent(),
    ensures
        agrees(r, device_designation_at(*source, pos as int)),
        advances(r, pos, source.extent()),
{
    let (token, end) = source.read_string(pos)?;
    match DeviceDesignation::from_token(token.as_str()) {
        Some(v) => Ok((v, end)),
        None => Err(DecodeError::UnknownVariant { set: TokenSet::DeviceDesignation, token }),
    }
}

/// Reads the token of a platform.
pub fn read_platform_type<S: Input>(source: &S, pos: usize) -> (r: Result<
    (PlatformType, usize),
    DecodeError,
>)
    requires
        pos <= source.extent(),
    ensures
        agrees(r, platform_type_at(*source, pos as int)),
        advances(r, pos, source.extent()),
{
    let (token, end) = source.read_string(pos)?;
    match PlatformType::from_token(token.as_str()) {
        Some(v) => Ok((v, end)),
        None => Err(DecodeError::UnknownVariant { set: TokenSet::PlatformType, token }),
    }
}

/// Reads the token of a form factor.
pub fn read_form_factor<S: Input>(source: &S, pos: usize) -> (r: Result<
    (FormFactor, usize),
    DecodeError,
>)
    requires
        pos <= source.extent(),
    ensures
        agrees(r, form_factor_at(*source, pos as int)),
        advances(r, pos, source.extent()),
{
    let (token, end) = source.read_string(pos)?;
    match FormFactor::from_token(token.as_str()) {
        Some(v) => Ok((v, end)),
        None => Err(DecodeError::UnknownVariant { set: TokenSet::FormFactor, token }),
    }
}

} // verus!
