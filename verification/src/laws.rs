//! What holds of every document: laws that relate the decoder's parts.

use crate::activity::{
    activity_at, activity_empty, activity_fields, activity_reader, confidence_at,
    confidence_empty, confidence_fields, confidence_reader, ActivityConfidenceDraft,
    ActivityDraftView,
};
use crate::engine::{
    document, entries_at, entries_from, envelope_members, envelope_value, Outcome, Progress,
};
use crate::error::Failure;
use crate::protocol::LocationEntryView;
use crate::protocol::{ActivityConfidence, ActivityView};
use crate::record::{
    entry_at, entry_empty, entry_fields, location_fields, LocationDraft, LocationEntryDraftView,
};
use crate::tokens::{ActivityType, TokenSet};
use crate::values::{list_at, list_from, members_from, token_at};
use crate::wifi::{
    access_point_fields, location_metadata_fields, AccessPointDraftView,
    LocationMetadataDraftView,
};
use crate::input::Input;
use vstd::prelude::*;

verus! {

/// Reads one record, as the item of a list.
pub open spec fn entry_reader<S: Input>() -> spec_fn(S, int) -> Result<
    (LocationEntryView, int),
    Failure,
> {
    |s: S, pos: int| entry_at(s, pos)
}

/// From any record of the array on, the sink is given the records that the
/// array lists from there, each once and in the order of the array. Where
/// the list cannot be read, the decode ends with the list's error.
pub proof fn streaming_follows_the_list<S: Input>(s: S, pos: int, delivered: Seq<LocationEntryView>)
    ensures
        match list_from(s, pos, delivered, entry_reader()) {
            Ok((all, end)) => entries_from(s, pos, delivered) == (Progress {
                delivered: all,
                end: Ok(end),
            }),
            Err(e) => entries_from(s, pos, delivered).end == Err::<int, Failure>(e),
        },
    decreases s.extent() - pos,
{
    match entry_at(s, pos) {
        Err(e) => {},
        Ok((entry, p)) => match s.after_element(p) {
            Err(e) => {},
            Ok((more, q)) => {
                if more && pos < q <= s.extent() {
                    streaming_follows_the_list(s, q, delivered.push(entry));
                }
            },
        },
    }
}

/// A sink that had nothing is given exactly the records of the array: as
/// many calls as the array has records, in its order.
pub proof fn streaming_delivers_the_array<S: Input>(s: S, pos: int)
    ensures
        match list_at(s, pos, entry_reader()) {
            Ok((all, end)) => entries_at(s, pos, Seq::empty()) == (Progress {
                delivered: all,
                end: Ok(end),
            }),
            Err(e) => entries_at(s, pos, Seq::empty()).end == Err::<int, Failure>(e),
        },
{
    match s.open_array(pos) {
        Err(e) => {},
        Ok((some, p)) => {
            if some {
                streaming_follows_the_list(s, p, Seq::empty());
            }
        },
    }
}

/// An array without records is read without a call of the sink.
pub proof fn empty_array_delivers_nothing<S: Input>(
    s: S,
    pos: int,
    end: int,
    delivered: Seq<LocationEntryView>,
)
    requires
        s.open_array(pos) == Ok::<(bool, int), Failure>((false, end)),
    ensures
        entries_at(s, pos, delivered) == (Progress { delivered, end: Ok(end) }),
{
}

/// A record that cannot be read ends the decode with its error; the sink has
/// what it had.
pub proof fn record_error_ends_the_decode<S: Input>(
    s: S,
    pos: int,
    delivered: Seq<LocationEntryView>,
    e: Failure,
)
    requires
        entry_at(s, pos) == Err::<(LocationEntryView, int), Failure>(e),
    ensures
        entries_from(s, pos, delivered) == (Progress { delivered, end: Err(e) }),
{
}

/// Once `locations` has come, a member with that key ends the decode with a
/// duplicate-field error, and the sink is not called again.
pub proof fn second_locations_ends_the_decode<S: Input>(
    s: S,
    pos: int,
    at: int,
    delivered: Seq<LocationEntryView>,
)
    requires
        s.key_at(pos) == Ok::<(Seq<char>, int), Failure>(("locations"@, at)),
    ensures
        envelope_members(s, pos, true, delivered) == (Outcome {
            delivered,
            failure: Some(Failure::DuplicateField { name: "locations"@ }),
        }),
{
}

/// An error in the value of an envelope member ends the decode with that
/// error; the sink keeps what it was given up to the error.
pub proof fn envelope_error_ends_the_decode<S: Input>(
    s: S,
    pos: int,
    seen: bool,
    delivered: Seq<LocationEntryView>,
    key: Seq<char>,
    at: int,
    e: Failure,
)
    requires
        s.key_at(pos) == Ok::<(Seq<char>, int), Failure>((key, at)),
        envelope_value(s, at, key, seen, delivered).end == Err::<int, Failure>(e),
    ensures
        envelope_members(s, pos, seen, delivered) == (Outcome {
            delivered: envelope_value(s, at, key, seen, delivered).delivered,
            failure: Some(e),
        }),
{
}

/// An error in the value of a member is the error of the object.
pub proof fn member_error_ends_the_object<S: Input, D>(
    s: S,
    pos: int,
    gathered: D,
    field: spec_fn(S, int, Seq<char>, D) -> Result<(D, int), Failure>,
    key: Seq<char>,
    at: int,
    e: Failure,
)
    requires
        s.key_at(pos) == Ok::<(Seq<char>, int), Failure>((key, at)),
        field(s, at, key, gathered) == Err::<(D, int), Failure>(e),
    ensures
        members_from(s, pos, gathered, field) == Err::<(D, int), Failure>(e),
{
}

/// An error in an item is the error of the list.
pub proof fn item_error_ends_the_list<S: Input, T>(
    s: S,
    pos: int,
    before: Seq<T>,
    item: spec_fn(S, int) -> Result<(T, int), Failure>,
    e: Failure,
)
    requires
        item(s, pos) == Err::<(T, int), Failure>(e),
    ensures
        list_from(s, pos, before, item) == Err::<(Seq<T>, int), Failure>(e),
{
}

/// The keys of an access point.
pub open spec fn access_point_key(key: Seq<char>) -> bool {
    key == "mac"@ || key == "strength"@ || key == "frequencyMhz"@ || key == "isConnected"@
}

/// The keys of a metadata snapshot.
pub open spec fn location_metadata_key(key: Seq<char>) -> bool {
    key == "wifiScan"@ || key == "activeWifiScan"@ || key == "timestamp"@
}

/// The keys of a fix.
pub open spec fn location_key(key: Seq<char>) -> bool {
    key == "timestamp"@ || key == "latitudeE7"@ || key == "longitudeE7"@ || key == "accuracy"@
}

/// The keys of a record.
pub open spec fn entry_key(key: Seq<char>) -> bool {
    location_key(key) || key == "velocity"@ || key == "heading"@ || key == "source"@ || key
        == "deviceTag"@ || key == "activity"@ || key == "altitude"@ || key == "verticalAccuracy"@
        || key == "deviceDesignation"@ || key == "activeWifiScan"@ || key == "platformType"@
        || key == "osLevel"@ || key == "serverTimestamp"@ || key == "deviceTimestamp"@ || key
        == "batteryCharging"@ || key == "formFactor"@ || key == "locationMetadata"@ || key
        == "inferredLocation"@ || key == "placeId"@
}

/// An access point with a member that it does not have is an unknown-field
/// error, whatever came before that member.
pub proof fn access_point_is_strict<S: Input>(
    s: S,
    pos: int,
    key: Seq<char>,
    at: int,
    gathered: AccessPointDraftView,
)
    requires
        s.key_at(pos) == Ok::<(Seq<char>, int), Failure>((key, at)),
        !access_point_key(key),
    ensures
        members_from(s, pos, gathered, access_point_fields()) == Err::<
            (AccessPointDraftView, int),
            Failure,
        >(Failure::UnknownField { key }),
{
}

/// A metadata snapshot with a member that it does not have is an
/// unknown-field error, whatever came before that member.
pub proof fn location_metadata_is_strict<S: Input>(
    s: S,
    pos: int,
    key: Seq<char>,
    at: int,
    gathered: LocationMetadataDraftView,
)
    requires
        s.key_at(pos) == Ok::<(Seq<char>, int), Failure>((key, at)),
        !location_metadata_key(key),
    ensures
        members_from(s, pos, gathered, location_metadata_fields()) == Err::<
            (LocationMetadataDraftView, int),
            Failure,
        >(Failure::UnknownField { key }),
{
}

/// A fix with a member that it does not have is an unknown-field error.
pub proof fn location_is_strict<S: Input>(
    s: S,
    pos: int,
    key: Seq<char>,
    at: int,
    gathered: LocationDraft,
)
    requires
        s.key_at(pos) == Ok::<(Seq<char>, int), Failure>((key, at)),
        !location_key(key),
    ensures
        members_from(s, pos, gathered, location_fields()) == Err::<(LocationDraft, int), Failure>(
            Failure::UnknownField { key },
        ),
{
}

/// A record with a member that it does not have is an unknown-field error.
pub proof fn entry_is_strict<S: Input>(
    s: S,
    pos: int,
    key: Seq<char>,
    at: int,
    gathered: LocationEntryDraftView,
)
    requires
        s.key_at(pos) == Ok::<(Seq<char>, int), Failure>((key, at)),
        !entry_key(key),
    ensures
        members_from(s, pos, gathered, entry_fields()) == Err::<
            (LocationEntryDraftView, int),
            Failure,
        >(Failure::UnknownField { key }),
{
}

/// After a member that was read, the object goes on with the next member and
/// what was gathered.
pub proof fn object_goes_on<S: Input, D>(
    s: S,
    pos: int,
    gathered: D,
    field: spec_fn(S, int, Seq<char>, D) -> Result<(D, int), Failure>,
    key: Seq<char>,
    at: int,
    next: D,
    end: int,
    q: int,
)
    requires
        s.key_at(pos) == Ok::<(Seq<char>, int), Failure>((key, at)),
        field(s, at, key, gathered) == Ok::<(D, int), Failure>((next, end)),
        s.after_member(end) == Ok::<(bool, int), Failure>((true, q)),
        pos < q <= s.extent(),
    ensures
        members_from(s, pos, gathered, field) == members_from(s, q, next, field),
{
}

/// After an item that was read, the list goes on with the next item.
pub proof fn list_goes_on<S: Input, T>(
    s: S,
    pos: int,
    before: Seq<T>,
    item: spec_fn(S, int) -> Result<(T, int), Failure>,
    v: T,
    end: int,
    q: int,
)
    requires
        item(s, pos) == Ok::<(T, int), Failure>((v, end)),
        s.after_element(end) == Ok::<(bool, int), Failure>((true, q)),
        pos < q <= s.extent(),
    ensures
        list_from(s, pos, before, item) == list_from(s, q, before.push(v), item),
{
}

/// After a record that was read and handed over, the decode goes on with the
/// next record.
pub proof fn decode_goes_on<S: Input>(
    s: S,
    pos: int,
    delivered: Seq<LocationEntryView>,
    entry: LocationEntryView,
    end: int,
    q: int,
)
    requires
        entry_at(s, pos) == Ok::<(LocationEntryView, int), Failure>((entry, end)),
        s.after_element(end) == Ok::<(bool, int), Failure>((true, q)),
        pos < q <= s.extent(),
    ensures
        entries_from(s, pos, delivered) == entries_from(s, q, delivered.push(entry)),
{
}

/// A token that its set does not hold is an unknown-variant error that names
/// the set, and with it the field and the tokens allowed there, and the
/// token itself.
pub proof fn unknown_token_is_named<S: Input, T>(
    s: S,
    pos: int,
    set: TokenSet,
    variant: spec_fn(Seq<char>) -> Option<T>,
    token: Seq<char>,
    end: int,
)
    requires
        s.string_at(pos) == Ok::<(Seq<char>, int), Failure>((token, end)),
        variant(token) is None,
    ensures
        token_at(s, pos, set, variant) == Err::<(T, int), Failure>(
            Failure::UnknownVariant { set, token },
        ),
{
}

/// An activity pair whose `type` is no activity ends with the error that
/// names the activities, whose field is `type`, and the token.
pub proof fn unknown_activity_ends_the_pair<S: Input>(
    s: S,
    pos: int,
    at: int,
    token: Seq<char>,
    end: int,
    gathered: ActivityConfidenceDraft,
)
    requires
        s.key_at(pos) == Ok::<(Seq<char>, int), Failure>(("type"@, at)),
        gathered.typ is None,
        s.string_at(at) == Ok::<(Seq<char>, int), Failure>((token, end)),
        ActivityType::of_wire(token) is None,
    ensures
        members_from(s, pos, gathered, confidence_fields()) == Err::<
            (ActivityConfidenceDraft, int),
            Failure,
        >(Failure::UnknownVariant { set: TokenSet::ActivityType, token }),
        TokenSet::ActivityType.field_name() == "type"@,
        !TokenSet::ActivityType.admits(token),
{
}

/// An activity sample whose list of pairs reaches such a pair ends with that
/// error.
pub proof fn unknown_activity_ends_the_sample<S: Input>(
    s: S,
    pos: int,
    gathered: ActivityDraftView,
    list: int,
    first: int,
    pair: int,
    pairs: Seq<ActivityConfidence>,
    members: int,
    member: int,
    draft: ActivityConfidenceDraft,
    at: int,
    token: Seq<char>,
    end: int,
)
    requires
        s.key_at(pos) == Ok::<(Seq<char>, int), Failure>(("activity"@, list)),
        gathered.activity is None,
        s.open_array(list) == Ok::<(bool, int), Failure>((true, first)),
        list_from(s, first, Seq::empty(), confidence_reader()) == list_from(
            s,
            pair,
            pairs,
            confidence_reader(),
        ),
        s.open_object(pair) == Ok::<(bool, int), Failure>((true, members)),
        members_from(s, members, confidence_empty(), confidence_fields()) == members_from(
            s,
            member,
            draft,
            confidence_fields(),
        ),
        s.key_at(member) == Ok::<(Seq<char>, int), Failure>(("type"@, at)),
        draft.typ is None,
        s.string_at(at) == Ok::<(Seq<char>, int), Failure>((token, end)),
        ActivityType::of_wire(token) is None,
    ensures
        members_from(s, pos, gathered, activity_fields()) == Err::<(ActivityDraftView, int), Failure>(
            Failure::UnknownVariant { set: TokenSet::ActivityType, token },
        ),
{
    reveal(confidence_at);
    unknown_activity_ends_the_pair(s, member, at, token, end, draft);
    let e = Failure::UnknownVariant { set: TokenSet::ActivityType, token };
    assert(confidence_at(s, pair) == Err::<(ActivityConfidence, int), Failure>(e));
    assert(confidence_reader()(s, pair) == Err::<(ActivityConfidence, int), Failure>(e));
    item_error_ends_the_list(s, pair, pairs, confidence_reader(), e);
}

/// A document whose decode reaches an activity pair whose `type` is no
/// activity ends with the unknown-variant error that names the activities
/// and the token; the sink has the records that came before that record, and
/// no more.
pub proof fn unknown_activity_ends_the_decode<S: Input>(
    s: S,
    envelope: int,
    had: Seq<LocationEntryView>,
    array: int,
    first_record: int,
    record: int,
    delivered: Seq<LocationEntryView>,
    record_members: int,
    record_member: int,
    record_draft: LocationEntryDraftView,
    samples: int,
    first_sample: int,
    sample: int,
    read_samples: Seq<ActivityView>,
    sample_members: int,
    sample_member: int,
    sample_draft: ActivityDraftView,
    list: int,
    first: int,
    pair: int,
    pairs: Seq<ActivityConfidence>,
    members: int,
    member: int,
    draft: ActivityConfidenceDraft,
    at: int,
    token: Seq<char>,
    end: int,
)
    requires
        document(s) == envelope_members(s, envelope, false, had),
        s.key_at(envelope) == Ok::<(Seq<char>, int), Failure>(("locations"@, array)),
        s.open_array(array) == Ok::<(bool, int), Failure>((true, first_record)),
        entries_from(s, first_record, had) == entries_from(s, record, delivered),
        s.open_object(record) == Ok::<(bool, int), Failure>((true, record_members)),
        members_from(s, record_members, entry_empty(), entry_fields()) == members_from(
            s,
            record_member,
            record_draft,
            entry_fields(),
        ),
        s.key_at(record_member) == Ok::<(Seq<char>, int), Failure>(("activity"@, samples)),
        record_draft.activity is None,
        s.null_at(samples) is None,
        s.open_array(samples) == Ok::<(bool, int), Failure>((true, first_sample)),
        list_from(s, first_sample, Seq::empty(), activity_reader()) == list_from(
            s,
            sample,
            read_samples,
            activity_reader(),
        ),
        s.open_object(sample) == Ok::<(bool, int), Failure>((true, sample_members)),
        members_from(s, sample_members, activity_empty(), activity_fields()) == members_from(
            s,
            sample_member,
            sample_draft,
            activity_fields(),
        ),
        s.key_at(sample_member) == Ok::<(Seq<char>, int), Failure>(("activity"@, list)),
        sample_draft.activity is None,
        s.open_array(list) == Ok::<(bool, int), Failure>((true, first)),
        list_from(s, first, Seq::empty(), confidence_reader()) == list_from(
            s,
            pair,
            pairs,
            confidence_reader(),
        ),
        s.open_object(pair) == Ok::<(bool, int), Failure>((true, members)),
        members_from(s, members, confidence_empty(), confidence_fields()) == members_from(
            s,
            member,
            draft,
            confidence_fields(),
        ),
        s.key_at(member) == Ok::<(Seq<char>, int), Failure>(("type"@, at)),
        draft.typ is None,
        s.string_at(at) == Ok::<(Seq<char>, int), Failure>((token, end)),
        ActivityType::of_wire(token) is None,
    ensures
        document(s) == (Outcome {
            delivered,
            failure: Some(Failure::UnknownVariant { set: TokenSet::ActivityType, token }),
        }),
{
    let e = Failure::UnknownVariant { set: TokenSet::ActivityType, token };
    unknown_activity_ends_the_sample(
        s,
        sample_member,
        sample_draft,
        list,
        first,
        pair,
        pairs,
        members,
        member,
        draft,
        at,
        token,
        end,
    );
    assert(activity_at(s, sample) == Err::<(ActivityView, int), Failure>(e)) by {
        reveal(activity_at);
    }
    assert(activity_reader()(s, sample) == Err::<(ActivityView, int), Failure>(e));
    item_error_ends_the_list(s, sample, read_samples, activity_reader(), e);
    assert(entry_fields()(s, samples, "activity"@, record_draft) == Err::<
        (LocationEntryDraftView, int),
        Failure,
    >(e)) by {
        reveal_strlit("activity");
        reveal_strlit("timestamp");
        reveal_strlit("latitudeE7");
        reveal_strlit("longitudeE7");
        reveal_strlit("accuracy");
        reveal_strlit("velocity");
        reveal_strlit("heading");
        reveal_strlit("source");
        reveal_strlit("deviceTag");
        assert("activity"@.len() == 8);
        assert("timestamp"@.len() == 9);
        assert("latitudeE7"@.len() == 10);
        assert("longitudeE7"@.len() == 11);
        assert("heading"@.len() == 7);
        assert("source"@.len() == 6);
        assert("deviceTag"@.len() == 9);
        assert("activity"@[2] != "accuracy"@[2]);
        assert("activity"@[0] != "velocity"@[0]);
    }
    member_error_ends_the_object(
        s,
        record_member,
        record_draft,
        entry_fields(),
        "activity"@,
        samples,
        e,
    );
    assert(entry_at(s, record) == Err::<(LocationEntryView, int), Failure>(e)) by {
        reveal(entry_at);
    }
    record_error_ends_the_decode(s, record, delivered, e);
}

} // verus!
