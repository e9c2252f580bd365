//! The record itself: the fix that every record holds, and the record with
//! all that may come with it.

use crate::activity::{activities_at, read_activities};
use crate::codec::Timestamp;
use crate::error::{DecodeError, Failure};
use crate::protocol::{
    Activity, ActivityView, Location, LocationEntry, LocationEntryView, LocationMetadata,
    LocationMetadataView, WifiScan, WifiScanView,
};
use crate::tokens::{DeviceDesignation, FormFactor, PlatformType, Source};
use crate::values::{
    agrees_deep, defaulted, device_designation_at, duplicate_field, finished, form_factor_at,
    fresh, i32_at, list_at, list_from, members_from, missing_field, object_at, optional,
    platform_type_at, read_device_designation, read_form_factor, read_i32, read_platform_type,
    read_source, read_timestamp, read_u16, read_u32, read_u8, required, source_at, timestamp_at,
    u16_at, u32_at, u8_at, unknown_field, yields_deep,
};
use crate::wifi::{
    location_metadata_list_at, read_location_metadata_list, read_wifi_scan, wifi_scan_at,
};
use crate::input::{advances, agrees, Input};
use vstd::prelude::*;

verus! {

/// The fields of a fix that have come so far.
pub struct LocationDraft {
    pub timestamp: Option<Timestamp>,
    pub latitude_e7: Option<i32>,
    pub longitude_e7: Option<i32>,
    pub accuracy: Option<i32>,
}

pub open spec fn location_empty() -> LocationDraft {
    LocationDraft { timestamp: None, latitude_e7: None, longitude_e7: None, accuracy: None }
}

/// One member of a fix. Any key but the four is an error.
pub open spec fn location_field<S: Input>(s: S, pos: int, key: Seq<char>, d: LocationDraft) -> Result<
    (LocationDraft, int),
    Failure,
> {
    if key == "timestamp"@ {
        match fresh(d.timestamp, "timestamp"@, timestamp_at(s, pos, "timestamp"@)) {
            Ok((v, end)) => Ok((LocationDraft { timestamp: Some(v), ..d }, end)),
            Err(e) => Err(e),
        }
    } else if key == "latitudeE7"@ {
        match fresh(d.latitude_e7, "latitudeE7"@, i32_at(s, pos, "latitudeE7"@)) {
            Ok((v, end)) => Ok((LocationDraft { latitude_e7: Some(v), ..d }, end)),
            Err(e) => Err(e),
        }
    } else if key == "longitudeE7"@ {
        match fresh(d.longitude_e7, "longitudeE7"@, i32_at(s, pos, "longitudeE7"@)) {
            Ok((v, end)) => Ok((LocationDraft { longitude_e7: Some(v), ..d }, end)),
            Err(e) => Err(e),
        }
    } else if key == "accuracy"@ {
        match fresh(d.accuracy, "accuracy"@, i32_at(s, pos, "accuracy"@)) {
            Ok((v, end)) => Ok((LocationDraft { accuracy: Some(v), ..d }, end)),
            Err(e) => Err(e),
        }
    } else {
        Err(Failure::UnknownField { key })
    }
}

pub open spec fn location_finish(d: LocationDraft) -> Result<Location, Failure> {
    match required(d.timestamp, "timestamp"@) {
        Err(e) => Err(e),
        Ok(timestamp) => match required(d.latitude_e7, "latitudeE7"@) {
            Err(e) => Err(e),
            Ok(latitude_e7) => match required(d.longitude_e7, "longitudeE7"@) {
                Err(e) => Err(e),
                Ok(longitude_e7) => match required(d.accuracy, "accuracy"@) {
                    Err(e) => Err(e),
                    Ok(accuracy) => Ok(Location { timestamp, latitude_e7, longitude_e7, accuracy }),
                },
            },
        },
    }
}

pub open spec fn location_fields<S: Input>() -> spec_fn(S, int, Seq<char>, LocationDraft) -> Result<
    (LocationDraft, int),
    Failure,
> {
    |s: S, pos: int, key: Seq<char>, d: LocationDraft| location_field(s, pos, key, d)
}

#[verifier::opaque]
pub open spec fn location_at<S: Input>(s: S, pos: int) -> Result<(Location, int), Failure> {
    finished(
        object_at(s, pos, location_empty(), location_fields()),
        |d: LocationDraft| location_finish(d),
    )
}

pub open spec fn location_reader<S: Input>() -> spec_fn(S, int) -> Result<
    (Location, int),
    Failure,
> {
    |s: S, pos: int| location_at(s, pos)
}

pub open spec fn locations_at<S: Input>(s: S, pos: int) -> Result<(Seq<Location>, int), Failure> {
    list_at(s, pos, location_reader())
}

impl LocationDraft {
    pub fn new() -> (r: LocationDraft)
        ensures
            r == location_empty(),
    {
        LocationDraft {
            timestamp: None,
            latitude_e7: None,
            longitude_e7: None,
            accuracy: None,
        }
    }

    /// Takes the value at `pos` for the member named `key`.
    pub fn take<S: Input>(&mut self, source: &S, pos: usize, key: String) -> (r: Result<
        usize,
        DecodeError,
    >)
        requires
            pos <= source.extent(),
        ensures
            match r {
                Ok(end) => location_field(*source, pos as int, key@, *old(self)) == Ok::<
                    (LocationDraft, int),
                    Failure,
                >((*final(self), end as int)) && pos < end <= source.extent(),
                Err(e) => location_field(*source, pos as int, key@, *old(self)) == Err::<
                    (LocationDraft, int),
                    Failure,
                >(e@),
            },
    {
        if key.as_str().eq("timestamp") {
            if self.timestamp.is_some() {
                return Err(duplicate_field("timestamp"));
            }
            let (v, end) = read_timestamp(source, pos, "timestamp")?;
            self.timestamp = Some(v);
            Ok(end)
        } else if key.as_str().eq("latitudeE7") {
            if self.latitude_e7.is_some() {
                return Err(duplicate_field("latitudeE7"));
            }
            let (v, end) = read_i32(source, pos, "latitudeE7")?;
            self.latitude_e7 = Some(v);
            Ok(end)
        } else if key.as_str().eq("longitudeE7") {
            if self.longitude_e7.is_some() {
                return Err(duplicate_field("longitudeE7"));
            }
            let (v, end) = read_i32(source, pos, "longitudeE7")?;
            self.longitude_e7 = Some(v);
            Ok(end)
        } else if key.as_str().eq("accuracy") {
            if self.accuracy.is_some() {
                return Err(duplicate_field("accuracy"));
            }
            let (v, end) = read_i32(source, pos, "accuracy")?;
            self.accuracy = Some(v);
            Ok(end)
        } else {
            Err(unknown_field(key))
        }
    }

    pub fn finish(self) -> (r: Result<Location, DecodeError>)
        ensures
            yields_deep(r, location_finish(self)),
    {
        let timestamp = match self.timestamp {
            Some(v) => v,
            None => { return Err(missing_field("timestamp")); },
        };
        let latitude_e7 = match self.latitude_e7 {
            Some(v) => v,
            None => { return Err(missing_field("latitudeE7")); },
        };
        let longitude_e7 = match self.longitude_e7 {
            Some(v) => v,
            None => { return Err(missing_field("longitudeE7")); },
        };
        let accuracy = match self.accuracy {
            Some(v) => v,
            None => { return Err(missing_field("accuracy")); },
        };
        Ok(Location { timestamp, latitude_e7, longitude_e7, accuracy })
    }
}

pub fn read_location<S: Input>(source: &S, pos: usize) -> (r: Result<
    (Location, usize),
    DecodeError,
>)
    requires
        pos <= source.extent(),
    ensures
        agrees(r, location_at(*source, pos as int)),
        advances(r, pos, source.extent()),
{
    reveal(location_at);
    let (some, start) = source.enter_object(pos)?;
    let mut draft = LocationDraft::new();
    let mut p = start;
    if some {
        loop
            invariant_except_break
                object_at(*source, pos as int, location_empty(), location_fields()) == members_from(
                    *source,
                    p as int,
                    draft,
                    location_fields(),
                ),
            invariant
                pos < p <= source.extent(),
            ensures
                pos < p <= source.extent(),
                object_at(*source, pos as int, location_empty(), location_fields()) == Ok::<
                    (LocationDraft, int),
                    Failure,
                >((draft, p as int)),
            decreases source.extent() - p,
        {
            reveal(location_at);
            let (key, at) = source.read_key(p)?;
            let end = draft.take(source, at, key)?;
            let (more, q) = source.next_member(end)?;
            p = q;
            if !more {
                break ;
            }
        }
    }
    let v = draft.finish()?;
    Ok((v, p))
}

pub fn read_locations<S: Input>(source: &S, pos: usize) -> (r: Result<
    (Vec<Location>, usize),
    DecodeError,
>)
    requires
        pos <= source.extent(),
    ensures
        agrees_deep(r, locations_at(*source, pos as int)),
        advances(r, pos, source.extent()),
{
    let (some, start) = source.enter_array(pos)?;
    let mut items: Vec<Location> = Vec::new();
    let mut p = start;
    assert(items.deep_view() =~= Seq::empty());
    if some {
        loop
            invariant_except_break
                locations_at(*source, pos as int) == list_from(
                    *source,
                    p as int,
                    items.deep_view(),
                    location_reader(),
                ),
            invariant
                pos < p <= source.extent(),
            ensures
                pos < p <= source.extent(),
                locations_at(*source, pos as int) == Ok::<(Seq<Location>, int), Failure>(
                    (items.deep_view(), p as int),
                ),
            decreases source.extent() - p,
        {
            let (item, end) = read_location(source, p)?;
            let (more, q) = source.next_element(end)?;
            let ghost before = items.deep_view();
            let ghost added = item.deep_view();
            items.push(item);
            assert(items.deep_view() =~= before.push(added));
            p = q;
            if !more {
                break ;
            }
        }
    }
    Ok((items, p))
}

/// The fields of a record that have come so far. An optional field that came
/// as `null` has come, and holds nothing.
pub struct LocationEntryDraft {
    pub timestamp: Option<Timestamp>,
    pub latitude_e7: Option<i32>,
    pub longitude_e7: Option<i32>,
    pub accuracy: Option<i32>,
    pub velocity: Option<Option<u32>>,
    pub heading: Option<Option<u16>>,
    pub source: Option<Source>,
    pub device_tag: Option<i32>,
    pub activity: Option<Option<Vec<Activity>>>,
    pub altitude: Option<Option<i32>>,
    pub vertical_accuracy: Option<Option<i32>>,
    pub device_designation: Option<Option<DeviceDesignation>>,
    pub active_wifi_scan: Option<Option<WifiScan>>,
    pub platform_type: Option<Option<PlatformType>>,
    pub os_level: Option<Option<u8>>,
    pub server_timestamp: Option<Option<Timestamp>>,
    pub device_timestamp: Option<Option<Timestamp>>,
    pub battery_charging: Option<Option<bool>>,
    pub form_factor: Option<Option<FormFactor>>,
    pub location_metadata: Option<Option<Vec<LocationMetadata>>>,
    pub inferred_location: Option<Option<Vec<Location>>>,
    pub place_id: Option<Option<String>>,
}

pub struct LocationEntryDraftView {
    pub timestamp: Option<Timestamp>,
    pub latitude_e7: Option<i32>,
    pub longitude_e7: Option<i32>,
    pub accuracy: Option<i32>,
    pub velocity: Option<Option<u32>>,
    pub heading: Option<Option<u16>>,
    pub source: Option<Source>,
    pub device_tag: Option<i32>,
    pub activity: Option<Option<Seq<ActivityView>>>,
    pub altitude: Option<Option<i32>>,
    pub vertical_accuracy: Option<Option<i32>>,
    pub device_designation: Option<Option<DeviceDesignation>>,
    pub active_wifi_scan: Option<Option<WifiScanView>>,
    pub platform_type: Option<Option<PlatformType>>,
    pub os_level: Option<Option<u8>>,
    pub server_timestamp: Option<Option<Timestamp>>,
    pub device_timestamp: Option<Option<Timestamp>>,
    pub battery_charging: Option<Option<bool>>,
    pub form_factor: Option<Option<FormFactor>>,
    pub location_metadata: Option<Option<Seq<LocationMetadataView>>>,
    pub inferred_location: Option<Option<Seq<Location>>>,
    pub place_id: Option<Option<Seq<char>>>,
}

impl DeepView for LocationEntryDraft {
    type V = LocationEntryDraftView;

    open spec fn deep_view(&self) -> LocationEntryDraftView {
        LocationEntryDraftView {
            timestamp: self.timestamp,
            latitude_e7: self.latitude_e7,
            longitude_e7: self.longitude_e7,
            accuracy: self.accuracy,
            velocity: self.velocity,
            heading: self.heading,
            source: self.source,
            device_tag: self.device_tag,
            activity: self.activity.deep_view(),
            altitude: self.altitude,
            vertical_accuracy: self.vertical_accuracy,
            device_designation: self.device_designation,
            active_wifi_scan: self.active_wifi_scan.deep_view(),
            platform_type: self.platform_type,
            os_level: self.os_level,
            server_timestamp: self.server_timestamp,
            device_timestamp: self.device_timestamp,
            battery_charging: self.battery_charging,
            form_factor: self.form_factor,
            location_metadata: self.location_metadata.deep_view(),
            inferred_location: self.inferred_location.deep_view(),
            place_id: self.place_id.deep_view(),
        }
    }
}

pub open spec fn entry_empty() -> LocationEntryDraftView {
    LocationEntryDraftView {
        timestamp: None,
        latitude_e7: None,
        longitude_e7: None,
        accuracy: None,
        velocity: None,
        heading: None,
        source: None,
        device_tag: None,
        activity: None,
        altitude: None,
        vertical_accuracy: None,
        device_designation: None,
        active_wifi_scan: None,
        platform_type: None,
        os_level: None,
        server_timestamp: None,
        device_timestamp: None,
        battery_charging: None,
        form_factor: None,
        location_metadata: None,
        inferred_location: None,
        place_id: None,
    }
}

/// One member of a record. Any key that a record does not have is an error.
pub open spec fn entry_field<S: Input>(
    s: S,
    pos: int,
    key: Seq<char>,
    d: LocationEntryDraftView,
) -> Result<
    (LocationEntryDraftView, int),
    Failure,
> {
    if key == "timestamp"@ {
        match fresh(d.timestamp, "timestamp"@, timestamp_at(s, pos, "timestamp"@)) {
            Ok((v, end)) => Ok((LocationEntryDraftView { timestamp: Some(v), ..d }, end)),
            Err(e) => Err(e),
        }
    } else if key == "latitudeE7"@ {
        match fresh(d.latitude_e7, "latitudeE7"@, i32_at(s, pos, "latitudeE7"@)) {
            Ok((v, end)) => Ok((LocationEntryDraftView { latitude_e7: Some(v), ..d }, end)),
            Err(e) => Err(e),
        }
    } else if key == "longitudeE7"@ {
        match fresh(d.longitude_e7, "longitudeE7"@, i32_at(s, pos, "longitudeE7"@)) {
            Ok((v, end)) => Ok((LocationEntryDraftView { longitude_e7: Some(v), ..d }, end)),
            Err(e) => Err(e),
        }
    } else if key == "accuracy"@ {
        match fresh(d.accuracy, "accuracy"@, i32_at(s, pos, "accuracy"@)) {
            Ok((v, end)) => Ok((LocationEntryDraftView { accuracy: Some(v), ..d }, end)),
            Err(e) => Err(e),
        }
    } else if key == "velocity"@ {
        match fresh(
            d.velocity,
            "velocity"@,
            optional(s.null_at(pos), u32_at(s, pos, "velocity"@)),
        ) {
            Ok((v, end)) => Ok((LocationEntryDraftView { velocity: Some(v), ..d }, end)),
            Err(e) => Err(e),
        }
    } else if key == "heading"@ {
        match fresh(d.heading, "heading"@, optional(s.null_at(pos), u16_at(s, pos, "heading"@))) {
            Ok((v, end)) => Ok((LocationEntryDraftView { heading: Some(v), ..d }, end)),
            Err(e) => Err(e),
        }
    } else if key == "source"@ {
        match fresh(d.source, "source"@, source_at(s, pos)) {
            Ok((v, end)) => Ok((LocationEntryDraftView { source: Some(v), ..d }, end)),
            Err(e) => Err(e),
        }
    } else if key == "deviceTag"@ {
        match fresh(d.device_tag, "deviceTag"@, i32_at(s, pos, "deviceTag"@)) {
            Ok((v, end)) => Ok((LocationEntryDraftView { device_tag: Some(v), ..d }, end)),
            Err(e) => Err(e),
        }
    } else if key == "activity"@ {
        match fresh(d.activity, "activity"@, optional(s.null_at(pos), activities_at(s, pos))) {
            Ok((v, end)) => Ok((LocationEntryDraftView { activity: Some(v), ..d }, end)),
            Err(e) => Err(e),
        }
    } else if key == "altitude"@ {
        match fresh(
            d.altitude,
            "altitude"@,
            optional(s.null_at(pos), i32_at(s, pos, "altitude"@)),
        ) {
            Ok((v, end)) => Ok((LocationEntryDraftView { altitude: Some(v), ..d }, end)),
            Err(e) => Err(e),
        }
    } else if key == "verticalAccuracy"@ {
        match fresh(
            d.vertical_accuracy,
            "verticalAccuracy"@,
            optional(s.null_at(pos), i32_at(s, pos, "verticalAccuracy"@)),
        ) {
            Ok((v, end)) => Ok((LocationEntryDraftView { vertical_accuracy: Some(v), ..d }, end)),
            Err(e) => Err(e),
        }
    } else if key == "deviceDesignation"@ {
        match fresh(
            d.device_designation,
            "deviceDesignation"@,
            optional(s.null_at(pos), device_designation_at(s, pos)),
        ) {
            Ok((v, end)) => Ok((LocationEntryDraftView { device_designation: Some(v), ..d }, end)),
            Err(e) => Err(e),
        }
    } else if key == "activeWifiScan"@ {
        match fresh(
            d.active_wifi_scan,
            "activeWifiScan"@,
            optional(s.null_at(pos), wifi_scan_at(s, pos)),
        ) {
            Ok((v, end)) => Ok((LocationEntryDraftView { active_wifi_scan: Some(v), ..d }, end)),
            Err(e) => Err(e),
        }
    } else if key == "platformType"@ {
        match fresh(
            d.platform_type,
            "platformType"@,
            optional(s.null_at(pos), platform_type_at(s, pos)),
        ) {
            Ok((v, end)) => Ok((LocationEntryDraftView { platform_type: Some(v), ..d }, end)),
            Err(e) => Err(e),
        }
    } else if key == "osLevel"@ {
        match fresh(d.os_level, "osLevel"@, optional(s.null_at(pos), u8_at(s, pos, "osLevel"@))) {
            Ok((v, end)) => Ok((LocationEntryDraftView { os_level: Some(v), ..d }, end)),
            Err(e) => Err(e),
        }
    } else if key == "serverTimestamp"@ {
        match fresh(
            d.server_timestamp,
            "serverTimestamp"@,
            optional(s.null_at(pos), timestamp_at(s, pos, "serverTimestamp"@)),
        ) {
            Ok((v, end)) => Ok((LocationEntryDraftView { server_timestamp: Some(v), ..d }, end)),
            Err(e) => Err(e),
        }
    } else if key == "deviceTimestamp"@ {
        match fresh(
            d.device_timestamp,
            "deviceTimestamp"@,
            optional(s.null_at(pos), timestamp_at(s, pos, "deviceTimestamp"@)),
        ) {
            Ok((v, end)) => Ok((LocationEntryDraftView { device_timestamp: Some(v), ..d }, end)),
            Err(e) => Err(e),
        }
    } else if key == "batteryCharging"@ {
        match fresh(
            d.battery_charging,
            "batteryCharging"@,
            optional(s.null_at(pos), s.boolean_at(pos)),
        ) {
            Ok((v, end)) => Ok((LocationEntryDraftView { battery_charging: Some(v), ..d }, end)),
            Err(e) => Err(e),
        }
    } else if key == "formFactor"@ {
        match fresh(
            d.form_factor,
            "formFactor"@,
            optional(s.null_at(pos), form_factor_at(s, pos)),
        ) {
            Ok((v, end)) => Ok((LocationEntryDraftView { form_factor: Some(v), ..d }, end)),
            Err(e) => Err(e),
        }
    } else if key == "locationMetadata"@ {
        match fresh(
            d.location_metadata,
            "locationMetadata"@,
            optional(s.null_at(pos), location_metadata_list_at(s, pos)),
        ) {
            Ok((v, end)) => Ok((LocationEntryDraftView { location_metadata: Some(v), ..d }, end)),
            Err(e) => Err(e),
        }
    } else if key == "inferredLocation"@ {
        match fresh(
            d.inferred_location,
            "inferredLocation"@,
            optional(s.null_at(pos), locations_at(s, pos)),
        ) {
            Ok((v, end)) => Ok((LocationEntryDraftView { inferred_location: Some(v), ..d }, end)),
            Err(e) => Err(e),
        }
    } else if key == "placeId"@ {
        match fresh(d.place_id, "placeId"@, optional(s.null_at(pos), s.string_at(pos))) {
            Ok((v, end)) => Ok((LocationEntryDraftView { place_id: Some(v), ..d }, end)),
            Err(e) => Err(e),
        }
    } else {
        Err(Failure::UnknownField { key })
    }
}

/// The fix of a record, from the four fields that a fix has.
pub open spec fn entry_location(d: LocationEntryDraftView) -> Result<Location, Failure> {
    location_finish(
        LocationDraft {
            timestamp: d.timestamp,
            latitude_e7: d.latitude_e7,
            longitude_e7: d.longitude_e7,
            accuracy: d.accuracy,
        },
    )
}

/// The record, once its members are in. A required field that never came is
/// an error that names it: the record's own first, then those of its fix. An
/// optional field that never came holds nothing.
pub open spec fn entry_finish(d: LocationEntryDraftView) -> Result<LocationEntryView, Failure> {
    match required(d.source, "source"@) {
        Err(e) => Err(e),
        Ok(source) => match required(d.device_tag, "deviceTag"@) {
            Err(e) => Err(e),
            Ok(device_tag) => match entry_location(d) {
                Err(e) => Err(e),
                Ok(location) => Ok(
                    LocationEntryView {
                        location,
                        velocity: defaulted(d.velocity),
                        heading: defaulted(d.heading),
                        source,
                        device_tag,
                        activity: defaulted(d.activity),
                        altitude: defaulted(d.altitude),
                        vertical_accuracy: defaulted(d.vertical_accuracy),
                        device_designation: defaulted(d.device_designation),
                        active_wifi_scan: defaulted(d.active_wifi_scan),
                        platform_type: defaulted(d.platform_type),
                        os_level: defaulted(d.os_level),
                        server_timestamp: defaulted(d.server_timestamp),
                        device_timestamp: defaulted(d.device_timestamp),
                        battery_charging: defaulted(d.battery_charging),
                        form_factor: defaulted(d.form_factor),
                        location_metadata: defaulted(d.location_metadata),
                        inferred_location: defaulted(d.inferred_location),
                        place_id: defaulted(d.place_id),
                    },
                ),
            },
        },
    }
}

pub open spec fn entry_fields<S: Input>(
    ) -> spec_fn(S, int, Seq<char>, LocationEntryDraftView,
) -> Result<
    (LocationEntryDraftView, int),
    Failure,
> {
    |s: S, pos: int, key: Seq<char>, d: LocationEntryDraftView| entry_field(s, pos, key, d)
}

/// The record that stands at `pos`, and where it ends.
#[verifier::opaque]
pub open spec fn entry_at<S: Input>(s: S, pos: int) -> Result<(LocationEntryView, int), Failure> {
    finished(
        object_at(s, pos, entry_empty(), entry_fields()),
        |d: LocationEntryDraftView| entry_finish(d),
    )
}

/// What an optional field holds in the end.
pub fn settled<T>(slot: Option<Option<T>>) -> (r: Option<T>)
    ensures
        r == defaulted(slot),
{
    match slot {
        Some(v) => v,
        None => None,
    }
}

impl LocationEntryDraft {
    pub fn new() -> (r: LocationEntryDraft)
        ensures
            r.deep_view() == entry_empty(),
    {
        LocationEntryDraft {
            timestamp: None,
            latitude_e7: None,
            longitude_e7: None,
            accuracy: None,
            velocity: None,
            heading: None,
            source: None,
            device_tag: None,
            activity: None,
            altitude: None,
            vertical_accuracy: None,
            device_designation: None,
            active_wifi_scan: None,
            platform_type: None,
            os_level: None,
            server_timestamp: None,
            device_timestamp: None,
            battery_charging: None,
            form_factor: None,
            location_metadata: None,
            inferred_location: None,
            place_id: None,
        }
    }

    /// Takes the value at `pos` for the member named `key`.
    pub fn take<S: Input>(&mut self, source: &S, pos: usize, key: String) -> (r: Result<
        usize,
        DecodeError,
    >)
        requires
            pos <= source.extent(),
        ensures
            match r {
                Ok(end) => entry_field(*source, pos as int, key@, old(self).deep_view()) == Ok::<
                    (LocationEntryDraftView, int),
                    Failure,
                >((final(self).deep_view(), end as int)) && pos < end <= source.extent(),
                Err(e) => entry_field(*source, pos as int, key@, old(self).deep_view()) == Err::<
                    (LocationEntryDraftView, int),
                    Failure,
                >(e@),
            },
    {
        if key.as_str().eq("timestamp") {
            if self.timestamp.is_some() {
                return Err(duplicate_field("timestamp"));
            }
            let (v, end) = read_timestamp(source, pos, "timestamp")?;
            self.timestamp = Some(v);
            Ok(end)
        } else if key.as_str().eq("latitudeE7") {
            if self.latitude_e7.is_some() {
                return Err(duplicate_field("latitudeE7"));
            }
            let (v, end) = read_i32(source, pos, "latitudeE7")?;
            self.latitude_e7 = Some(v);
            Ok(end)
        } else if key.as_str().eq("longitudeE7") {
            if self.longitude_e7.is_some() {
                return Err(duplicate_field("longitudeE7"));
            }
            let (v, end) = read_i32(source, pos, "longitudeE7")?;
            self.longitude_e7 = Some(v);
            Ok(end)
        } else if key.as_str().eq("accuracy") {
            if self.accuracy.is_some() {
                return Err(duplicate_field("accuracy"));
            }
            let (v, end) = read_i32(source, pos, "accuracy")?;
            self.accuracy = Some(v);
            Ok(end)
        } else if key.as_str().eq("velocity") {
            if self.velocity.is_some() {
                return Err(duplicate_field("velocity"));
            }
            match source.read_null(pos)? {
                Some(end) => {
                    self.velocity = Some(None);
                    Ok(end)
                },
                None => {
                    let (v, end) = read_u32(source, pos, "velocity")?;
                    self.velocity = Some(Some(v));
                    Ok(end)
                },
            }
        } else if key.as_str().eq("heading") {
            if self.heading.is_some() {
                return Err(duplicate_field("heading"));
            }
            match source.read_null(pos)? {
                Some(end) => {
                    self.heading = Some(None);
                    Ok(end)
                },
                None => {
                    let (v, end) = read_u16(source, pos, "heading")?;
                    self.heading = Some(Some(v));
                    Ok(end)
                },
            }
        } else if key.as_str().eq("source") {
            if self.source.is_some() {
                return Err(duplicate_field("source"));
            }
            let (v, end) = read_source(source, pos)?;
            self.source = Some(v);
            Ok(end)
        } else if key.as_str().eq("deviceTag") {
            if self.device_tag.is_some() {
                return Err(duplicate_field("deviceTag"));
            }
            let (v, end) = read_i32(source, pos, "deviceTag")?;
            self.device_tag = Some(v);
            Ok(end)
        } else if key.as_str().eq("activity") {
            if self.activity.is_some() {
                return Err(duplicate_field("activity"));
            }
            match source.read_null(pos)? {
                Some(end) => {
                    self.activity = Some(None);
                    Ok(end)
                },
                None => {
                    let (v, end) = read_activities(source, pos)?;
                    self.activity = Some(Some(v));
                    Ok(end)
                },
            }
        } else if key.as_str().eq("altitude") {
            if self.altitude.is_some() {
                return Err(duplicate_field("altitude"));
            }
            match source.read_null(pos)? {
                Some(end) => {
                    self.altitude = Some(None);
                    Ok(end)
                },
                None => {
                    let (v, end) = read_i32(source, pos, "altitude")?;
                    self.altitude = Some(Some(v));
                    Ok(end)
                },
            }
        } else if key.as_str().eq("verticalAccuracy") {
            if self.vertical_accuracy.is_some() {
                return Err(duplicate_field("verticalAccuracy"));
            }
            match source.read_null(pos)? {
                Some(end) => {
                    self.vertical_accuracy = Some(None);
                    Ok(end)
                },
                None => {
                    let (v, end) = read_i32(source, pos, "verticalAccuracy")?;
                    self.vertical_accuracy = Some(Some(v));
                    Ok(end)
                },
            }
        } else if key.as_str().eq("deviceDesignation") {
            if self.device_designation.is_some() {
                return Err(duplicate_field("deviceDesignation"));
            }
            match source.read_null(pos)? {
                Some(end) => {
                    self.device_designation = Some(None);
                    Ok(end)
                },
                None => {
                    let (v, end) = read_device_designation(source, pos)?;
                    self.device_designation = Some(Some(v));
                    Ok(end)
                },
            }
        } else if key.as_str().eq("activeWifiScan") {
            if self.active_wifi_scan.is_some() {
                return Err(duplicate_field("activeWifiScan"));
            }
            match source.read_null(pos)? {
                Some(end) => {
                    self.active_wifi_scan = Some(None);
                    Ok(end)
                },
                None => {
                    let (v, end) = read_wifi_scan(source, pos)?;
                    self.active_wifi_scan = Some(Some(v));
                    Ok(end)
                },
            }
        } else if key.as_str().eq("platformType") {
            if self.platform_type.is_some() {
                return Err(duplicate_field("platformType"));
            }
            match source.read_null(pos)? {
                Some(end) => {
                    self.platform_type = Some(None);
                    Ok(end)
                },
                None => {
                    let (v, end) = read_platform_type(source, pos)?;
                    self.platform_type = Some(Some(v));
                    Ok(end)
                },
            }
        } else if key.as_str().eq("osLevel") {
            if self.os_level.is_some() {
                return Err(duplicate_field("osLevel"));
            }
            match source.read_null(pos)? {
                Some(end) => {
                    self.os_level = Some(None);
                    Ok(end)
                },
                None => {
                    let (v, end) = read_u8(source, pos, "osLevel")?;
                    self.os_level = Some(Some(v));
                    Ok(end)
                },
            }
        } else if key.as_str().eq("serverTimestamp") {
            if self.server_timestamp.is_some() {
                return Err(duplicate_field("serverTimestamp"));
            }
            match source.read_null(pos)? {
                Some(end) => {
                    self.server_timestamp = Some(None);
                    Ok(end)
                },
                None => {
                    let (v, end) = read_timestamp(source, pos, "serverTimestamp")?;
                    self.server_timestamp = Some(Some(v));
                    Ok(end)
                },
            }
        } else if key.as_str().eq("deviceTimestamp") {
            if self.device_timestamp.is_some() {
                return Err(duplicate_field("deviceTimestamp"));
            }
            match source.read_null(pos)? {
                Some(end) => {
                    self.device_timestamp = Some(None);
                    Ok(end)
                },
                None => {
                    let (v, end) = read_timestamp(source, pos, "deviceTimestamp")?;
                    self.device_timestamp = Some(Some(v));
                    Ok(end)
                },
            }
        } else if key.as_str().eq("batteryCharging") {
            if self.battery_charging.is_some() {
                return Err(duplicate_field("batteryCharging"));
            }
            match source.read_null(pos)? {
                Some(end) => {
                    self.battery_charging = Some(None);
                    Ok(end)
                },
                None => {
                    let (v, end) = source.read_boolean(pos)?;
                    self.battery_charging = Some(Some(v));
                    Ok(end)
                },
            }
        } else if key.as_str().eq("formFactor") {
            if self.form_factor.is_some() {
                return Err(duplicate_field("formFactor"));
            }
            match source.read_null(pos)? {
                Some(end) => {
                    self.form_factor = Some(None);
                    Ok(end)
                },
                None => {
                    let (v, end) = read_form_factor(source, pos)?;
                    self.form_factor = Some(Some(v));
                    Ok(end)
                },
            }
        } else if key.as_str().eq("locationMetadata") {
            if self.location_metadata.is_some() {
                return Err(duplicate_field("locationMetadata"));
            }
            match source.read_null(pos)? {
                Some(end) => {
                    self.location_metadata = Some(None);
                    Ok(end)
                },
                None => {
                    let (v, end) = read_location_metadata_list(source, pos)?;
                    self.location_metadata = Some(Some(v));
                    Ok(end)
                },
            }
        } else if key.as_str().eq("inferredLocation") {
            if self.inferred_location.is_some() {
                return Err(duplicate_field("inferredLocation"));
            }
            match source.read_null(pos)? {
                Some(end) => {
                    self.inferred_location = Some(None);
                    Ok(end)
                },
                None => {
                    let (v, end) = read_locations(source, pos)?;
                    self.inferred_location = Some(Some(v));
                    Ok(end)
                },
            }
        } else if key.as_str().eq("placeId") {
            if self.place_id.is_some() {
                return Err(duplicate_field("placeId"));
            }
            match source.read_null(pos)? {
                Some(end) => {
                    self.place_id = Some(None);
                    Ok(end)
                },
                None => {
                    let (v, end) = source.read_string(pos)?;
                    self.place_id = Some(Some(v));
                    Ok(end)
                },
            }
        } else {
            Err(unknown_field(key))
        }
    }

    pub fn finish(self) -> (r: Result<LocationEntry, DecodeError>)
        ensures
            yields_deep(r, entry_finish(self.deep_view())),
    {
        let source = match self.source {
            Some(v) => v,
            None => { return Err(missing_field("source")); },
        };
        let device_tag = match self.device_tag {
            Some(v) => v,
            None => { return Err(missing_field("deviceTag")); },
        };
        let fix = LocationDraft {
            timestamp: self.timestamp,
            latitude_e7: self.latitude_e7,
            longitude_e7: self.longitude_e7,
            accuracy: self.accuracy,
        };
        let location = fix.finish()?;
        Ok(
            LocationEntry {
                location,
                velocity: settled(self.velocity),
                heading: settled(self.heading),
                source,
                device_tag,
                activity: settled(self.activity),
                altitude: settled(self.altitude),
                vertical_accuracy: settled(self.vertical_accuracy),
                device_designation: settled(self.device_designation),
                active_wifi_scan: settled(self.active_wifi_scan),
                platform_type: settled(self.platform_type),
                os_level: settled(self.os_level),
                server_timestamp: settled(self.server_timestamp),
                device_timestamp: settled(self.device_timestamp),
                battery_charging: settled(self.battery_charging),
                form_factor: settled(self.form_factor),
                location_metadata: settled(self.location_metadata),
                inferred_location: settled(self.inferred_location),
                place_id: settled(self.place_id),
            },
        )
    }
}

/// Reads the record that stands at `pos`.
pub fn read_entry<S: Input>(source: &S, pos: usize) -> (r: Result<
    (LocationEntry, usize),
    DecodeError,
>)
    requires
        pos <= source.extent(),
    ensures
        agrees_deep(r, entry_at(*source, pos as int)),
        advances(r, pos, source.extent()),
{
    reveal(entry_at);
    let (some, start) = source.enter_object(pos)?;
    let mut draft = LocationEntryDraft::new();
    let mut p = start;
    if some {
        loop
            invariant_except_break
                object_at(*source, pos as int, entry_empty(), entry_fields()) == members_from(
                    *source,
                    p as int,
                    draft.deep_view(),
                    entry_fields(),
                ),
            invariant
                pos < p <= source.extent(),
            ensures
                pos < p <= source.extent(),
                object_at(*source, pos as int, entry_empty(), entry_fields()) == Ok::<
                    (LocationEntryDraftView, int),
                    Failure,
                >((draft.deep_view(), p as int)),
            decreases source.extent() - p,
        {
            reveal(entry_at);
            let (key, at) = source.read_key(p)?;
            let end = draft.take(source, at, key)?;
            let (more, q) = source.next_member(end)?;
            p = q;
            if !more {
                break ;
            }
        }
    }
    let v = draft.finish()?;
    Ok((v, p))
}

} // verus!
