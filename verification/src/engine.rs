//! The decoder: walks the envelope, finds `locations`, and hands each record
//! of that array to the sink before it reads the next.

use crate::error::{DecodeError, Failure};
use crate::input::{ends_as, Input, JsonBytes};
use crate::protocol::{LocationEntry, LocationEntryView};
use crate::record::{entry_at, read_entry};
use crate::values::duplicate_field;
use vstd::prelude::*;

verus! {

/// The caller's function with two ghost logs: the records it was called
/// with, and what each of them holds. The logs are ghost: the decoder keeps
/// no record once the function has returned.
pub struct Sink<F> {
    f: F,
    given: Ghost<Seq<LocationEntry>>,
    log: Ghost<Seq<LocationEntryView>>,
}

impl<F: FnMut(LocationEntry)> Sink<F> {
    /// What the records handed to the sink so far hold, in the order they
    /// were handed.
    pub closed spec fn received(&self) -> Seq<LocationEntryView> {
        self.log@
    }

    /// The records that the caller's function was called with, in the order
    /// of the calls.
    pub closed spec fn given(&self) -> Seq<LocationEntry> {
        self.given@
    }

    /// The caller's function was called with `entry` and came back.
    pub closed spec fn called_with(&self, entry: LocationEntry) -> bool {
        call_ensures(self.f, (entry,), ())
    }

    /// Every record of the log was given to the caller's function: the log
    /// holds, call by call, what the function was called with.
    pub open spec fn handed_over(&self) -> bool {
        &&& self.given().len() == self.received().len()
        &&& forall|i: int|
            0 <= i < self.given().len() ==> self.received()[i] == (#[trigger] self.given()[
                i
            ]).deep_view() && self.called_with(self.given()[i])
    }

    /// The sink takes any record, and every record of its log was given to
    /// the caller's function.
    pub closed spec fn ready(&self) -> bool {
        &&& forall|e: LocationEntry| call_requires(self.f, (e,))
        &&& self.handed_over()
    }

    /// A sink that is ready has handed over every record of its log.
    pub proof fn ready_has_handed_over(&self)
        requires
            self.ready(),
        ensures
            self.handed_over(),
    {
    }

    pub fn new(f: F) -> (r: Sink<F>)
        requires
            forall|e: LocationEntry| call_requires(f, (e,)),
        ensures
            r.ready(),
            r.received() == Seq::<LocationEntryView>::empty(),
            r.given() == Seq::<LocationEntry>::empty(),
    {
        Sink { f, given: Ghost(Seq::empty()), log: Ghost(Seq::empty()) }
    }

    /// Calls the caller's function with one record.
    pub fn accept(&mut self, entry: LocationEntry)
        requires
            old(self).ready(),
        ensures
            final(self).ready(),
            final(self).handed_over(),
            final(self).called_with(entry),
            final(self).given() == old(self).given().push(entry),
            final(self).received() == old(self).received().push(entry.deep_view()),
    {
        let ghost handed = entry;
        (self.f)(entry);
        self.given = Ghost(self.given@.push(handed));
        self.log = Ghost(self.log@.push(handed.deep_view()));
    }
}

/// How far a walk got: the records handed over, then the position it reached
/// or the error that ended it.
pub struct Progress {
    pub delivered: Seq<LocationEntryView>,
    pub end: Result<int, Failure>,
}

/// What a decode did: the records handed over, and the error that ended it
/// if one did.
pub struct Outcome {
    pub delivered: Seq<LocationEntryView>,
    pub failure: Option<Failure>,
}

/// The records of the array from the one at `pos` on. Each is handed over as
/// soon as it is read, before the comma or bracket after it is looked at.
pub open spec fn entries_from<S: Input>(s: S, pos: int, delivered: Seq<LocationEntryView>) -> Progress
    decreases s.extent() - pos,
{
    match entry_at(s, pos) {
        Err(e) => Progress { delivered, end: Err(e) },
        Ok((entry, p)) => match s.after_element(p) {
            Err(e) => Progress { delivered: delivered.push(entry), end: Err(e) },
            Ok((more, q)) => if !more {
                Progress { delivered: delivered.push(entry), end: Ok(q) }
            } else if pos < q <= s.extent() {
                entries_from(s, q, delivered.push(entry))
            } else {
                Progress {
                    delivered: delivered.push(entry),
                    end: Err(Failure::Syntax { offset: q, reader: false }),
                }
            },
        },
    }
}

/// The whole array of records.
pub open spec fn entries_at<S: Input>(s: S, pos: int, delivered: Seq<LocationEntryView>) -> Progress {
    match s.open_array(pos) {
        Err(e) => Progress { delivered, end: Err(e) },
        Ok((some, p)) => if some {
            entries_from(s, p, delivered)
        } else {
            Progress { delivered, end: Ok(p) }
        },
    }
}

/// What the decoder does with the value of an envelope member.
#[derive(Debug, Clone, Copy, PartialEq, Eq, Structural)]
pub enum FieldAction {
    /// The value is the array of records: stream it.
    Records,
    /// The value is of no interest: read past it.
    Skip,
}

/// The envelope while it is walked: whether `locations` has come.
pub struct Envelope {
    pub seen_locations: bool,
}

/// The decision on one envelope member. `locations` holds the records and
/// may come once; any other member is tolerated.
pub open spec fn envelope_action(seen: bool, key: Seq<char>) -> Result<FieldAction, Failure> {
    if key == "locations"@ {
        if seen {
            Err(Failure::DuplicateField { name: "locations"@ })
        } else {
            Ok(FieldAction::Records)
        }
    } else {
        Ok(FieldAction::Skip)
    }
}

impl Envelope {
    pub fn new() -> (r: Envelope)
        ensures
            !r.seen_locations,
    {
        Envelope { seen_locations: false }
    }

    /// Decides on the member named `key`, and notes that `locations` came.
    pub fn on_field(&mut self, key: &str) -> (r: Result<FieldAction, DecodeError>)
        ensures
            match r {
                Ok(action) => envelope_action(old(self).seen_locations, key@) == Ok::<
                    FieldAction,
                    Failure,
                >(action),
                Err(e) => envelope_action(old(self).seen_locations, key@) == Err::<
                    FieldAction,
                    Failure,
                >(e@),
            },
            final(self).seen_locations == (old(self).seen_locations || key@ == "locations"@),
    {
        if key.eq("locations") {
            if self.seen_locations {
                Err(duplicate_field("locations"))
            } else {
                self.seen_locations = true;
                Ok(FieldAction::Records)
            }
        } else {
            Ok(FieldAction::Skip)
        }
    }
}

/// The value of one member of the envelope, after the decision on its key.
pub open spec fn envelope_value<S: Input>(
    s: S,
    pos: int,
    key: Seq<char>,
    seen: bool,
    delivered: Seq<LocationEntryView>,
) -> Progress {
    match envelope_action(seen, key) {
        Err(e) => Progress { delivered, end: Err(e) },
        Ok(FieldAction::Records) => entries_at(s, pos, delivered),
        Ok(FieldAction::Skip) => Progress { delivered, end: s.ignored_at(pos) },
    }
}

/// The members of the envelope from the key at `pos` on. `seen` says whether
/// `locations` has come before.
pub open spec fn envelope_members<S: Input>(
    s: S,
    pos: int,
    seen: bool,
    delivered: Seq<LocationEntryView>,
) -> Outcome
    decreases s.extent() - pos,
{
    match s.key_at(pos) {
        Err(e) => Outcome { delivered, failure: Some(e) },
        Ok((key, at)) => {
            let step = envelope_value(s, at, key, seen, delivered);
            match step.end {
                Err(e) => Outcome { delivered: step.delivered, failure: Some(e) },
                Ok(p) => match s.after_member(p) {
                    Err(e) => Outcome { delivered: step.delivered, failure: Some(e) },
                    Ok((more, q)) => if !more {
                        Outcome { delivered: step.delivered, failure: None }
                    } else if pos < q <= s.extent() {
                        envelope_members(s, q, seen || key == "locations"@, step.delivered)
                    } else {
                        Outcome {
                            delivered: step.delivered,
                            failure: Some(Failure::Syntax { offset: q, reader: false }),
                        }
                    },
                },
            }
        },
    }
}

/// A whole document, for a sink that has `delivered` already. What follows
/// the envelope's closing brace is not looked at.
pub open spec fn document_onto<S: Input>(s: S, delivered: Seq<LocationEntryView>) -> Outcome {
    match s.open_object(0) {
        Err(e) => Outcome { delivered, failure: Some(e) },
        Ok((some, p)) => if some {
            envelope_members(s, p, false, delivered)
        } else {
            Outcome { delivered, failure: None }
        },
    }
}

/// A whole document: the records that a decode hands over, in order, and the
/// error that ends it if one does.
pub open spec fn document<S: Input>(s: S) -> Outcome {
    document_onto(s, Seq::empty())
}

/// Reads the array at `pos` and hands each record to the sink.
pub fn stream_entries<S: Input, F: FnMut(LocationEntry)>(
    source: &S,
    pos: usize,
    sink: &mut Sink<F>,
) -> (r: Result<usize, DecodeError>)
    requires
        pos <= source.extent(),
        old(sink).ready(),
    ensures
        final(sink).ready(),
        final(sink).handed_over(),
        old(sink).given().is_prefix_of(final(sink).given()),
        final(sink).received() == entries_at(
            *source,
            pos as int,
            old(sink).received(),
        ).delivered,
        ends_as(r, entries_at(*source, pos as int, old(sink).received()).end),
        r matches Ok(end) ==> pos < end <= source.extent(),
{
    let (some, start) = source.enter_array(pos)?;
    let mut p = start;
    if some {
        loop
            invariant_except_break
                entries_at(*source, pos as int, old(sink).received()) == entries_from(
                    *source,
                    p as int,
                    sink.received(),
                ),
            invariant
                pos < p <= source.extent(),
                sink.ready(),
                old(sink).given().is_prefix_of(sink.given()),
            ensures
                pos < p <= source.extent(),
                sink.ready(),
                old(sink).given().is_prefix_of(sink.given()),
                entries_at(*source, pos as int, old(sink).received()) == (Progress {
                    delivered: sink.received(),
                    end: Ok(p as int),
                }),
            decreases source.extent() - p,
        {
            let (entry, end) = read_entry(source, p)?;
            sink.accept(entry);
            let (more, q) = source.next_element(end)?;
            p = q;
            if !more {
                break ;
            }
        }
    }
    Ok(p)
}

fn walk_envelope<S: Input, F: FnMut(LocationEntry)>(source: &S, sink: &mut Sink<F>) -> (r: Result<
    (),
    DecodeError,
>)
    requires
        old(sink).ready(),
    ensures
        final(sink).ready(),
        final(sink).handed_over(),
        old(sink).given().is_prefix_of(final(sink).given()),
        final(sink).received() == document_onto(*source, old(sink).received()).delivered,
        match r {
            Ok(_) => document_onto(*source, old(sink).received()).failure is None,
            Err(e) => document_onto(*source, old(sink).received()).failure == Some(e@),
        },
{
    let (some, start) = source.enter_object(0)?;
    let mut p = start;
    let mut envelope = Envelope::new();
    if some {
        loop
            invariant_except_break
                document_onto(*source, old(sink).received()) == envelope_members(
                    *source,
                    p as int,
                    envelope.seen_locations,
                    sink.received(),
                ),
            invariant
                p <= source.extent(),
                sink.ready(),
                old(sink).given().is_prefix_of(sink.given()),
            ensures
                sink.ready(),
                old(sink).given().is_prefix_of(sink.given()),
                document_onto(*source, old(sink).received()) == (Outcome {
                    delivered: sink.received(),
                    failure: None,
                }),
            decreases source.extent() - p,
        {
            let (key, at) = source.read_key(p)?;
            let end = match envelope.on_field(key.as_str())? {
                FieldAction::Records => stream_entries(source, at, sink)?,
                FieldAction::Skip => source.skip_value(at)?,
            };
            let (more, q) = source.next_member(end)?;
            p = q;
            if !more {
                break ;
            }
        }
    }
    Ok(())
}

/// Decodes a document from any structured input and hands each record of its
/// `locations` array to the sink, in the order of the array. The first error
/// ends the decode; the records handed over before it stay handed over.
pub fn read_entries<S: Input, F: FnMut(LocationEntry)>(
    source: &S,
    sink: &mut Sink<F>,
) -> (r: Result<(), DecodeError>)
    requires
        old(sink).ready(),
    ensures
        final(sink).ready(),
        final(sink).handed_over(),
        old(sink).given().is_prefix_of(final(sink).given()),
        final(sink).received() == old(sink).received() + document(*source).delivered,
        match r {
            Ok(_) => document(*source).failure is None,
            Err(e) => document(*source).failure == Some(e@),
        },
{
    proof {
        document_appends(*source, sink.received());
    }
    walk_envelope(source, sink)
}

/// Decodes a JSON document held in bytes and calls `f` once for each record
/// of its `locations` array, in the order of the array. The sink that comes
/// back holds `f` and the log of what `f` was given.
pub fn read_json_entries<F: FnMut(LocationEntry)>(bytes: &[u8], f: F) -> (r: (
    Result<(), DecodeError>,
    Sink<F>,
))
    requires
        forall|e: LocationEntry| call_requires(f, (e,)),
    ensures
        r.1.ready(),
        r.1.handed_over(),
        r.1.received() == document((JsonBytes { bytes })).delivered,
        match r.0 {
            Ok(_) => document((JsonBytes { bytes })).failure is None,
            Err(e) => document((JsonBytes { bytes })).failure == Some(e@),
        },
{
    let source = JsonBytes::new(bytes);
    let mut sink = Sink::new(f);
    let result = read_entries(&source, &mut sink);
    assert(sink.received() =~= document(source).delivered);
    (result, sink)
}

/// What a decode hands over is added to what the sink had: the records from
/// one on are the same, whatever came before them.
pub proof fn entries_append<S: Input>(s: S, pos: int, delivered: Seq<LocationEntryView>)
    ensures
        entries_from(s, pos, delivered).delivered == delivered + entries_from(
            s,
            pos,
            Seq::empty(),
        ).delivered,
        entries_from(s, pos, delivered).end == entries_from(s, pos, Seq::empty()).end,
    decreases s.extent() - pos,
{
    let none = Seq::<LocationEntryView>::empty();
    match entry_at(s, pos) {
        Err(e) => {
            assert(delivered + none =~= delivered);
        },
        Ok((entry, p)) => {
            assert(delivered + none.push(entry) =~= delivered.push(entry));
            match s.after_element(p) {
                Err(e) => {},
                Ok((more, q)) => {
                    if more && pos < q <= s.extent() {
                        entries_append(s, q, delivered.push(entry));
                        entries_append(s, q, none.push(entry));
                        let rest = entries_from(s, q, none).delivered;
                        assert(delivered.push(entry) + rest =~= delivered + (none.push(entry)
                            + rest));
                    }
                },
            }
        },
    }
}

/// The same for the whole array.
pub proof fn array_appends<S: Input>(s: S, pos: int, delivered: Seq<LocationEntryView>)
    ensures
        entries_at(s, pos, delivered).delivered == delivered + entries_at(
            s,
            pos,
            Seq::empty(),
        ).delivered,
        entries_at(s, pos, delivered).end == entries_at(s, pos, Seq::empty()).end,
{
    assert(delivered + Seq::<LocationEntryView>::empty() =~= delivered);
    match s.open_array(pos) {
        Ok((some, p)) => {
            if some {
                entries_append(s, p, delivered);
            }
        },
        Err(e) => {},
    }
}

/// The same for the value of one member of the envelope.
pub proof fn envelope_value_appends<S: Input>(
    s: S,
    pos: int,
    key: Seq<char>,
    seen: bool,
    delivered: Seq<LocationEntryView>,
)
    ensures
        envelope_value(s, pos, key, seen, delivered).delivered == delivered + envelope_value(
            s,
            pos,
            key,
            seen,
            Seq::empty(),
        ).delivered,
        envelope_value(s, pos, key, seen, delivered).end == envelope_value(
            s,
            pos,
            key,
            seen,
            Seq::empty(),
        ).end,
{
    assert(delivered + Seq::<LocationEntryView>::empty() =~= delivered);
    array_appends(s, pos, delivered);
}

/// The same for the members of the envelope.
pub proof fn envelope_appends<S: Input>(s: S, pos: int, seen: bool, delivered: Seq<LocationEntryView>)
    ensures
        envelope_members(s, pos, seen, delivered).delivered == delivered + envelope_members(
            s,
            pos,
            seen,
            Seq::empty(),
        ).delivered,
        envelope_members(s, pos, seen, delivered).failure == envelope_members(
            s,
            pos,
            seen,
            Seq::empty(),
        ).failure,
    decreases s.extent() - pos,
{
    let none = Seq::<LocationEntryView>::empty();
    assert(delivered + none =~= delivered);
    match s.key_at(pos) {
        Err(e) => {},
        Ok((key, at)) => {
            let step = envelope_value(s, at, key, seen, delivered);
            let bare = envelope_value(s, at, key, seen, none);
            envelope_value_appends(s, at, key, seen, delivered);
            match step.end {
                Err(e) => {},
                Ok(p) => match s.after_member(p) {
                    Err(e) => {},
                    Ok((more, q)) => {
                        if more && pos < q <= s.extent() {
                            let next = seen || key == "locations"@;
                            envelope_appends(s, q, next, step.delivered);
                            envelope_appends(s, q, next, bare.delivered);
                            let rest = envelope_members(s, q, next, none).delivered;
                            assert(step.delivered + rest =~= delivered + (bare.delivered + rest));
                        }
                    },
                },
            }
        },
    }
}

/// A decode for a sink that has records already hands over what a decode
/// for a fresh sink does, and ends as it does.
pub proof fn document_appends<S: Input>(s: S, delivered: Seq<LocationEntryView>)
    ensures
        document_onto(s, delivered).delivered == delivered + document(s).delivered,
        document_onto(s, delivered).failure == document(s).failure,
{
    let none = Seq::<LocationEntryView>::empty();
    assert(delivered + none =~= delivered);
    match s.open_object(0) {
        Ok((some, p)) => {
            if some {
                envelope_appends(s, p, false, delivered);
            }
        },
        Err(e) => {},
    }
}

} // verus!
