//! Activity samples: what the device thought was going on, and how sure it
//! was.

use crate::codec::Timestamp;
use crate::error::{DecodeError, Failure};
use crate::protocol::{Activity, ActivityConfidence, ActivityView};
use crate::tokens::ActivityType;
use crate::values::{
    activity_type_at, agrees_deep, duplicate_field, finished, fresh, list_at, list_from,
    members_from, missing_field, object_at, read_activity_type, read_timestamp, read_u8, required,
    timestamp_at, u8_at, yields_deep,
};
use crate::input::{advances, agrees, Input};
use vstd::prelude::*;

verus! {

/// The fields of one activity and its confidence that have come so far.
pub struct ActivityConfidenceDraft {
    pub typ: Option<ActivityType>,
    pub confidence: Option<u8>,
}

pub open spec fn confidence_empty() -> ActivityConfidenceDraft {
    ActivityConfidenceDraft { typ: None, confidence: None }
}

/// One member of an activity with its confidence. A key it does not know is
/// read past.
pub open spec fn confidence_field<S: Input>(
    s: S,
    pos: int,
    key: Seq<char>,
    d: ActivityConfidenceDraft,
) -> Result<
    (ActivityConfidenceDraft, int),
    Failure,
> {
    if key == "type"@ {
        match fresh(d.typ, "type"@, activity_type_at(s, pos)) {
            Ok((v, end)) => Ok((ActivityConfidenceDraft { typ: Some(v), ..d }, end)),
            Err(e) => Err(e),
        }
    } else if key == "confidence"@ {
        match fresh(d.confidence, "confidence"@, u8_at(s, pos, "confidence"@)) {
            Ok((v, end)) => Ok((ActivityConfidenceDraft { confidence: Some(v), ..d }, end)),
            Err(e) => Err(e),
        }
    } else {
        match s.ignored_at(pos) {
            Ok(end) => Ok((d, end)),
            Err(e) => Err(e),
        }
    }
}

pub open spec fn confidence_finish(
    d: ActivityConfidenceDraft,
) -> Result<ActivityConfidence, Failure> {
    match required(d.typ, "type"@) {
        Err(e) => Err(e),
        Ok(typ) => match required(d.confidence, "confidence"@) {
            Err(e) => Err(e),
            Ok(confidence) => Ok(ActivityConfidence { typ, confidence }),
        },
    }
}

pub open spec fn confidence_fields<S: Input>(
    ) -> spec_fn(S, int, Seq<char>, ActivityConfidenceDraft,
) -> Result<
    (ActivityConfidenceDraft, int),
    Failure,
> {
    |s: S, pos: int, key: Seq<char>, d: ActivityConfidenceDraft|
        confidence_field(s, pos, key, d)
}

#[verifier::opaque]
pub open spec fn confidence_at<S: Input>(s: S, pos: int) -> Result<
    (ActivityConfidence, int),
    Failure,
> {
    finished(
        object_at(s, pos, confidence_empty(), confidence_fields()),
        |d: ActivityConfidenceDraft| confidence_finish(d),
    )
}

pub open spec fn confidence_reader<S: Input>(
    ) -> spec_fn(S, int,
) -> Result<(ActivityConfidence, int), Failure> {
    |s: S, pos: int| confidence_at(s, pos)
}

pub open spec fn confidences_at<S: Input>(
    s: S,
    pos: int,
) -> Result<(Seq<ActivityConfidence>, int), Failure> {
    list_at(s, pos, confidence_reader())
}

impl ActivityConfidenceDraft {
    pub fn new() -> (r: ActivityConfidenceDraft)
        ensures
            r == confidence_empty(),
    {
        ActivityConfidenceDraft { typ: None, confidence: None }
    }

    /// Takes the value at `pos` for the member named `key`.
    pub fn take<S: Input>(&mut self, source: &S, pos: usize, key: String) -> (r: Result<
        usize,
        DecodeError,
    >)
        requires
            pos <= source.extent(),
        ensures
            match r {
                Ok(end) => confidence_field(*source, pos as int, key@, *old(self)) == Ok::<
                    (ActivityConfidenceDraft, int),
                    Failure,
                >((*final(self), end as int)) && pos < end <= source.extent(),
                Err(e) => confidence_field(*source, pos as int, key@, *old(self)) == Err::<
                    (ActivityConfidenceDraft, int),
                    Failure,
                >(e@),
            },
    {
        if key.as_str().eq("type") {
            if self.typ.is_some() {
                return Err(duplicate_field("type"));
            }
            let (v, end) = read_activity_type(source, pos)?;
            self.typ = Some(v);
            Ok(end)
        } else if key.as_str().eq("confidence") {
            if self.confidence.is_some() {
                return Err(duplicate_field("confidence"));
            }
            let (v, end) = read_u8(source, pos, "confidence")?;
            self.confidence = Some(v);
            Ok(end)
        } else {
            source.skip_value(pos)
        }
    }

    pub fn finish(self) -> (r: Result<ActivityConfidence, DecodeError>)
        ensures
            yields_deep(r, confidence_finish(self)),
    {
        let typ = match self.typ {
            Some(v) => v,
            None => { return Err(missing_field("type")); },
        };
        let confidence = match self.confidence {
            Some(v) => v,
            None => { return Err(missing_field("confidence")); },
        };
        Ok(ActivityConfidence { typ, confidence })
    }
}

pub fn read_confidence<S: Input>(
    source: &S,
    pos: usize,
) -> (r: Result<(ActivityConfidence, usize), DecodeError>)
    requires
        pos <= source.extent(),
    ensures
        agrees(r, confidence_at(*source, pos as int)),
        advances(r, pos, source.extent()),
{
    reveal(confidence_at);
    let (some, start) = source.enter_object(pos)?;
    let mut draft = ActivityConfidenceDraft::new();
    let mut p = start;
    if some {
        loop
            invariant_except_break
                object_at(*source, pos as int, confidence_empty(), confidence_fields())
                    == members_from(*source, p as int, draft, confidence_fields()),
            invariant
                pos < p <= source.extent(),
            ensures
                pos < p <= source.extent(),
                object_at(*source, pos as int, confidence_empty(), confidence_fields()) == Ok::<
                    (ActivityConfidenceDraft, int),
                    Failure,
                >((draft, p as int)),
            decreases source.extent() - p,
        {
            reveal(confidence_at);
            let (key, at) = source.read_key(p)?;
            let end = draft.take(source, at, key)?;
            let (more, q) = source.next_member(end)?;
            p = q;
            if !more {
                break ;
            }
        }
    }
    let v = draft.finish()?;
    Ok((v, p))
}

pub fn read_confidences<S: Input>(
    source: &S,
    pos: usize,
) -> (r: Result<(Vec<ActivityConfidence>, usize), DecodeError>)
    requires
        pos <= source.extent(),
    ensures
        agrees_deep(r, confidences_at(*source, pos as int)),
        advances(r, pos, source.extent()),
{
    let (some, start) = source.enter_array(pos)?;
    let mut items: Vec<ActivityConfidence> = Vec::new();
    let mut p = start;
    assert(items.deep_view() =~= Seq::empty());
    if some {
        loop
            invariant_except_break
                confidences_at(*source, pos as int) == list_from(
                    *source,
                    p as int,
                    items.deep_view(),
                    confidence_reader(),
                ),
            invariant
                pos < p <= source.extent(),
            ensures
                pos < p <= source.extent(),
                confidences_at(*source, pos as int) == Ok::<(Seq<ActivityConfidence>, int), Failure>(
                    (items.deep_view(), p as int),
                ),
            decreases source.extent() - p,
        {
            let (item, end) = read_confidence(source, p)?;
            let (more, q) = source.next_element(end)?;
            let ghost before = items.deep_view();
            let ghost added = item.deep_view();
            items.push(item);
            assert(items.deep_view() =~= before.push(added));
            p = q;
            if !more {
                break ;
            }
        }
    }
    Ok((items, p))
}

/// The fields of an activity sample that have come so far.
pub struct ActivityDraft {
    pub activity: Option<Vec<ActivityConfidence>>,
    pub timestamp: Option<Timestamp>,
}

pub struct ActivityDraftView {
    pub activity: Option<Seq<ActivityConfidence>>,
    pub timestamp: Option<Timestamp>,
}

impl DeepView for ActivityDraft {
    type V = ActivityDraftView;

    open spec fn deep_view(&self) -> ActivityDraftView {
        ActivityDraftView { activity: self.activity.deep_view(), timestamp: self.timestamp }
    }
}

pub open spec fn activity_empty() -> ActivityDraftView {
    ActivityDraftView { activity: None, timestamp: None }
}

/// One member of an activity sample. A key it does not know is read past.
pub open spec fn activity_field<S: Input>(
    s: S,
    pos: int,
    key: Seq<char>,
    d: ActivityDraftView,
) -> Result<
    (ActivityDraftView, int),
    Failure,
> {
    if key == "activity"@ {
        match fresh(d.activity, "activity"@, confidences_at(s, pos)) {
            Ok((v, end)) => Ok((ActivityDraftView { activity: Some(v), ..d }, end)),
            Err(e) => Err(e),
        }
    } else if key == "timestamp"@ {
        match fresh(d.timestamp, "timestamp"@, timestamp_at(s, pos, "timestamp"@)) {
            Ok((v, end)) => Ok((ActivityDraftView { timestamp: Some(v), ..d }, end)),
            Err(e) => Err(e),
        }
    } else {
        match s.ignored_at(pos) {
            Ok(end) => Ok((d, end)),
            Err(e) => Err(e),
        }
    }
}

pub open spec fn activity_finish(d: ActivityDraftView) -> Result<ActivityView, Failure> {
    match required(d.activity, "activity"@) {
        Err(e) => Err(e),
        Ok(activity) => match required(d.timestamp, "timestamp"@) {
            Err(e) => Err(e),
            Ok(timestamp) => Ok(ActivityView { activity, timestamp }),
        },
    }
}

pub open spec fn activity_fields<S: Input>() -> spec_fn(S, int, Seq<char>, ActivityDraftView) -> Result<
    (ActivityDraftView, int),
    Failure,
> {
    |s: S, pos: int, key: Seq<char>, d: ActivityDraftView| activity_field(s, pos, key, d)
}

#[verifier::opaque]
pub open spec fn activity_at<S: Input>(s: S, pos: int) -> Result<(ActivityView, int), Failure> {
    finished(
        object_at(s, pos, activity_empty(), activity_fields()),
        |d: ActivityDraftView| activity_finish(d),
    )
}

pub open spec fn activity_reader<S: Input>(
    ) -> spec_fn(S, int,
) -> Result<(ActivityView, int), Failure> {
    |s: S, pos: int| activity_at(s, pos)
}

pub open spec fn activities_at<S: Input>(s: S, pos: int) -> Result<
    (Seq<ActivityView>, int),
    Failure,
> {
    list_at(s, pos, activity_reader())
}

impl ActivityDraft {
    pub fn new() -> (r: ActivityDraft)
        ensures
            r.deep_view() == activity_empty(),
    {
        ActivityDraft { activity: None, timestamp: None }
    }

    /// Takes the value at `pos` for the member named `key`.
    pub fn take<S: Input>(&mut self, source: &S, pos: usize, key: String) -> (r: Result<
        usize,
        DecodeError,
    >)
        requires
            pos <= source.extent(),
        ensures
            match r {
                Ok(end) => activity_field(*source, pos as int, key@, old(self).deep_view()) == Ok::<
                    (ActivityDraftView, int),
                    Failure,
                >((final(self).deep_view(), end as int)) && pos < end <= source.extent(),
                Err(e) => activity_field(*source, pos as int, key@, old(self).deep_view()) == Err::<
                    (ActivityDraftView, int),
                    Failure,
                >(e@),
            },
    {
        if key.as_str().eq("activity") {
            if self.activity.is_some() {
                return Err(duplicate_field("activity"));
            }
            let (v, end) = read_confidences(source, pos)?;
            self.activity = Some(v);
            Ok(end)
        } else if key.as_str().eq("timestamp") {
            if self.timestamp.is_some() {
                return Err(duplicate_field("timestamp"));
            }
            let (v, end) = read_timestamp(source, pos, "timestamp")?;
            self.timestamp = Some(v);
            Ok(end)
        } else {
            source.skip_value(pos)
        }
    }

    pub fn finish(self) -> (r: Result<Activity, DecodeError>)
        ensures
            yields_deep(r, activity_finish(self.deep_view())),
    {
        let activity = match self.activity {
            Some(v) => v,
            None => { return Err(missing_field("activity")); },
        };
        let timestamp = match self.timestamp {
            Some(v) => v,
            None => { return Err(missing_field("timestamp")); },
        };
        Ok(Activity { activity, timestamp })
    }
}

pub fn read_activity<S: Input>(source: &S, pos: usize) -> (r: Result<
    (Activity, usize),
    DecodeError,
>)
    requires
        pos <= source.extent(),
    ensures
        agrees_deep(r, activity_at(*source, pos as int)),
        advances(r, pos, source.extent()),
{
    reveal(activity_at);
    let (some, start) = source.enter_object(pos)?;
    let mut draft = ActivityDraft::new();
    let mut p = start;
    if some {
        loop
            invariant_except_break
                object_at(*source, pos as int, activity_empty(), activity_fields()) == members_from(
                    *source,
                    p as int,
                    draft.deep_view(),
                    activity_fields(),
                ),
            invariant
                pos < p <= source.extent(),
            ensures
                pos < p <= source.extent(),
                object_at(*source, pos as int, activity_empty(), activity_fields()) == Ok::<
                    (ActivityDraftView, int),
                    Failure,
                >((draft.deep_view(), p as int)),
            decreases source.extent() - p,
        {
            reveal(activity_at);
            let (key, at) = source.read_key(p)?;
            let end = draft.take(source, at, key)?;
            let (more, q) = source.next_member(end)?;
            p = q;
            if !more {
                break ;
            }
        }
    }
    let v = draft.finish()?;
    Ok((v, p))
}

pub fn read_activities<S: Input>(source: &S, pos: usize) -> (r: Result<
    (Vec<Activity>, usize),
    DecodeError,
>)
    requires
        pos <= source.extent(),
    ensures
        agrees_deep(r, activities_at(*source, pos as int)),
        advances(r, pos, source.extent()),
{
    let (some, start) = source.enter_array(pos)?;
    let mut items: Vec<Activity> = Vec::new();
    let mut p = start;
    assert(items.deep_view() =~= Seq::empty());
    if some {
        loop
            invariant_except_break
                activities_at(*source, pos as int) == list_from(
                    *source,
                    p as int,
                    items.deep_view(),
                    activity_reader(),
                ),
            invariant
                pos < p <= source.extent(),
            ensures
                pos < p <= source.extent(),
                activities_at(*source, pos as int) == Ok::<(Seq<ActivityView>, int), Failure>(
                    (items.deep_view(), p as int),
                ),
            decreases source.extent() - p,
        {
            let (item, end) = read_activity(source, p)?;
            let (more, q) = source.next_element(end)?;
            let ghost before = items.deep_view();
            let ghost added = item.deep_view();
            items.push(item);
            assert(items.deep_view() =~= before.push(added));
            p = q;
            if !more {
                break ;
            }
        }
    }
    Ok((items, p))
}

} // verus!
