//! What the decoder asks of its input: a structured source that can be read
//! at a position, and the adapter that reads a JSON document held in bytes.

use crate::error::{DecodeError, Failure};
use crate::wire;
use vstd::prelude::*;

verus! {

/// An executable scan agrees with its description: the same value and end,
/// or an error that says the same.
pub open spec fn agrees<T>(
    r: Result<(T, usize), DecodeError>,
    s: Result<(T, int), Failure>,
) -> bool {
    match r {
        Ok((v, end)) => s == Ok::<(T, int), Failure>((v, end as int)),
        Err(e) => s == Err::<(T, int), Failure>(e@),
    }
}

/// The same for a scan that yields only a position.
pub open spec fn ends_as(r: Result<usize, DecodeError>, s: Result<int, Failure>) -> bool {
    match r {
        Ok(end) => s == Ok::<int, Failure>(end as int),
        Err(e) => s == Err::<int, Failure>(e@),
    }
}

/// The scan ended strictly after `pos` and inside the text, if it succeeded.
pub open spec fn advances<T>(r: Result<(T, usize), DecodeError>, pos: usize, len: nat) -> bool {
    r matches Ok((_, end)) ==> pos < end <= len
}

/// A self-describing input. It says of the value at a position whether it is
/// an object, an array or a scalar of some kind, and is read one step at a
/// time. Each reader agrees with the description of the same name: the same
/// value and end, or an error that says the same.
pub trait Input {
    /// Where positions end.
    spec fn extent(&self) -> nat;

    /// An integer that fits an `i64`.
    spec fn integer_at(&self, pos: int) -> Result<(i64, int), Failure>;

    /// A string.
    spec fn string_at(&self, pos: int) -> Result<(Seq<char>, int), Failure>;

    /// A boolean.
    spec fn boolean_at(&self, pos: int) -> Result<(bool, int), Failure>;

    /// The end of a value of any kind, read and thrown away.
    spec fn ignored_at(&self, pos: int) -> Result<int, Failure>;

    /// Whether the value is the absent one: `None` where another value
    /// stands.
    spec fn null_at(&self, pos: int) -> Option<Result<int, Failure>>;

    /// The start of an object: whether it has a first member, and where
    /// that member's key stands, or where the empty object ends.
    spec fn open_object(&self, pos: int) -> Result<(bool, int), Failure>;

    /// The start of a sequence: whether it has a first item, and where.
    spec fn open_array(&self, pos: int) -> Result<(bool, int), Failure>;

    /// After a member's value: whether another member follows, and where
    /// its key stands, or where the object ends.
    spec fn after_member(&self, pos: int) -> Result<(bool, int), Failure>;

    /// After an item: whether another follows, and where.
    spec fn after_element(&self, pos: int) -> Result<(bool, int), Failure>;

    /// A member's key, and where its value stands.
    spec fn key_at(&self, pos: int) -> Result<(Seq<char>, int), Failure>;

    fn read_integer(&self, pos: usize) -> (r: Result<(i64, usize), DecodeError>)
        requires
            pos <= self.extent(),
        ensures
            agrees(r, self.integer_at(pos as int)),
            advances(r, pos, self.extent()),
    ;

    fn read_string(&self, pos: usize) -> (r: Result<(String, usize), DecodeError>)
        requires
            pos <= self.extent(),
        ensures
            match r {
                Ok((v, end)) => self.string_at(pos as int) == Ok::<(Seq<char>, int), Failure>(
                    (v@, end as int),
                ) && pos < end <= self.extent(),
                Err(e) => self.string_at(pos as int) == Err::<(Seq<char>, int), Failure>(e@),
            },
    ;

    fn read_boolean(&self, pos: usize) -> (r: Result<(bool, usize), DecodeError>)
        requires
            pos <= self.extent(),
        ensures
            agrees(r, self.boolean_at(pos as int)),
            advances(r, pos, self.extent()),
    ;

    fn skip_value(&self, pos: usize) -> (r: Result<usize, DecodeError>)
        requires
            pos <= self.extent(),
        ensures
            ends_as(r, self.ignored_at(pos as int)),
            r matches Ok(end) ==> pos < end <= self.extent(),
    ;

    fn read_null(&self, pos: usize) -> (r: Result<Option<usize>, DecodeError>)
        requires
            pos <= self.extent(),
        ensures
            match r {
                Ok(None) => self.null_at(pos as int) is None,
                Ok(Some(end)) => self.null_at(pos as int) == Some(Ok::<int, Failure>(end as int))
                    && pos < end <= self.extent(),
                Err(e) => self.null_at(pos as int) == Some(Err::<int, Failure>(e@)),
            },
    ;

    fn enter_object(&self, pos: usize) -> (r: Result<(bool, usize), DecodeError>)
        requires
            pos <= self.extent(),
        ensures
            agrees(r, self.open_object(pos as int)),
            advances(r, pos, self.extent()),
    ;

    fn enter_array(&self, pos: usize) -> (r: Result<(bool, usize), DecodeError>)
        requires
            pos <= self.extent(),
        ensures
            agrees(r, self.open_array(pos as int)),
            advances(r, pos, self.extent()),
    ;

    fn next_member(&self, pos: usize) -> (r: Result<(bool, usize), DecodeError>)
        requires
            pos <= self.extent(),
        ensures
            agrees(r, self.after_member(pos as int)),
            advances(r, pos, self.extent()),
    ;

    fn next_element(&self, pos: usize) -> (r: Result<(bool, usize), DecodeError>)
        requires
            pos <= self.extent(),
        ensures
            agrees(r, self.after_element(pos as int)),
            advances(r, pos, self.extent()),
    ;

    fn read_key(&self, pos: usize) -> (r: Result<(String, usize), DecodeError>)
        requires
            pos <= self.extent(),
        ensures
            match r {
                Ok((v, end)) => self.key_at(pos as int) == Ok::<(Seq<char>, int), Failure>(
                    (v@, end as int),
                ) && pos < end <= self.extent(),
                Err(e) => self.key_at(pos as int) == Err::<(Seq<char>, int), Failure>(e@),
            },
    ;
}

/// A JSON document held in bytes, read from its first byte on.
pub struct JsonBytes<'a> {
    pub bytes: &'a [u8],
}

impl<'a> JsonBytes<'a> {
    pub fn new(bytes: &'a [u8]) -> (r: JsonBytes<'a>)
        ensures
            r == (JsonBytes { bytes }),
    {
        JsonBytes { bytes }
    }
}

impl<'a> Input for JsonBytes<'a> {
    open spec fn extent(&self) -> nat {
        self.bytes@.len()
    }

    open spec fn integer_at(&self, pos: int) -> Result<(i64, int), Failure> {
        wire::integer_at(self.bytes@, pos)
    }

    open spec fn string_at(&self, pos: int) -> Result<(Seq<char>, int), Failure> {
        wire::string_at(self.bytes@, pos)
    }

    open spec fn boolean_at(&self, pos: int) -> Result<(bool, int), Failure> {
        wire::boolean_at(self.bytes@, pos)
    }

    open spec fn ignored_at(&self, pos: int) -> Result<int, Failure> {
        wire::ignored_at(self.bytes@, pos)
    }

    open spec fn null_at(&self, pos: int) -> Option<Result<int, Failure>> {
        wire::null_at(self.bytes@, pos)
    }

    open spec fn open_object(&self, pos: int) -> Result<(bool, int), Failure> {
        wire::open_object(self.bytes@, pos)
    }

    open spec fn open_array(&self, pos: int) -> Result<(bool, int), Failure> {
        wire::open_array(self.bytes@, pos)
    }

    open spec fn after_member(&self, pos: int) -> Result<(bool, int), Failure> {
        wire::after_member(self.bytes@, pos)
    }

    open spec fn after_element(&self, pos: int) -> Result<(bool, int), Failure> {
        wire::after_element(self.bytes@, pos)
    }

    open spec fn key_at(&self, pos: int) -> Result<(Seq<char>, int), Failure> {
        wire::key_at(self.bytes@, pos)
    }

    fn read_integer(&self, pos: usize) -> (r: Result<(i64, usize), DecodeError>) {
        wire::read_integer(self.bytes, pos)
    }

    fn read_string(&self, pos: usize) -> (r: Result<(String, usize), DecodeError>) {
        wire::read_string(self.bytes, pos)
    }

    fn read_boolean(&self, pos: usize) -> (r: Result<(bool, usize), DecodeError>) {
        wire::read_boolean(self.bytes, pos)
    }

    fn skip_value(&self, pos: usize) -> (r: Result<usize, DecodeError>) {
        wire::skip_value(self.bytes, pos)
    }

    fn read_null(&self, pos: usize) -> (r: Result<Option<usize>, DecodeError>) {
        wire::read_null(self.bytes, pos)
    }

    fn enter_object(&self, pos: usize) -> (r: Result<(bool, usize), DecodeError>) {
        wire::enter_object(self.bytes, pos)
    }

    fn enter_array(&self, pos: usize) -> (r: Result<(bool, usize), DecodeError>) {
        wire::enter_array(self.bytes, pos)
    }

    fn next_member(&self, pos: usize) -> (r: Result<(bool, usize), DecodeError>) {
        wire::next_member(self.bytes, pos)
    }

    fn next_element(&self, pos: usize) -> (r: Result<(bool, usize), DecodeError>) {
        wire::next_element(self.bytes, pos)
    }

    fn read_key(&self, pos: usize) -> (r: Result<(String, usize), DecodeError>) {
        wire::read_key(self.bytes, pos)
    }
}

} // verus!
