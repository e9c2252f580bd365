//! Wifi scans: access points, the scan that lists them, and the metadata
//! snapshot that holds scans.

use crate::codec::{MacAddr, Timestamp};
use crate::error::{DecodeError, Failure};
use crate::protocol::{
    AccessPoint, AccessPointView, LocationMetadata, LocationMetadataView, WifiScan, WifiScanView,
};
use crate::values::{
    address_at, agrees_deep, defaulted, duplicate_field, finished, fresh, i8_at, list_at, list_from,
    members_from, missing_field, object_at, optional, read_address, read_i8, read_timestamp,
    read_u16, required, timestamp_at, u16_at, unknown_field, yields_deep,
};
use crate::input::{advances, Input};
use vstd::prelude::*;

verus! {

/// The fields of an access point that have come so far.
pub struct AccessPointDraft {
    pub mac: Option<MacAddr>,
    pub strength: Option<i8>,
    pub frequency_mhz: Option<u16>,
    pub is_connected: Option<bool>,
}

pub struct AccessPointDraftView {
    pub mac: Option<Seq<u8>>,
    pub strength: Option<i8>,
    pub frequency_mhz: Option<u16>,
    pub is_connected: Option<bool>,
}

impl DeepView for AccessPointDraft {
    type V = AccessPointDraftView;

    open spec fn deep_view(&self) -> AccessPointDraftView {
        AccessPointDraftView {
            mac: match self.mac {
                Some(m) => Some(m.octets()),
                None => None,
            },
            strength: self.strength,
            frequency_mhz: self.frequency_mhz,
            is_connected: self.is_connected,
        }
    }
}

pub open spec fn access_point_empty() -> AccessPointDraftView {
    AccessPointDraftView { mac: None, strength: None, frequency_mhz: None, is_connected: None }
}

/// One member of an access point. Any key but the four is an error.
pub open spec fn access_point_field<S: Input>(
    s: S,
    pos: int,
    key: Seq<char>,
    d: AccessPointDraftView,
) -> Result<
    (AccessPointDraftView, int),
    Failure,
> {
    if key == "mac"@ {
        match fresh(d.mac, "mac"@, address_at(s, pos, "mac"@)) {
            Ok((v, end)) => Ok((AccessPointDraftView { mac: Some(v), ..d }, end)),
            Err(e) => Err(e),
        }
    } else if key == "strength"@ {
        match fresh(d.strength, "strength"@, i8_at(s, pos, "strength"@)) {
            Ok((v, end)) => Ok((AccessPointDraftView { strength: Some(v), ..d }, end)),
            Err(e) => Err(e),
        }
    } else if key == "frequencyMhz"@ {
        match fresh(d.frequency_mhz, "frequencyMhz"@, u16_at(s, pos, "frequencyMhz"@)) {
            Ok((v, end)) => Ok((AccessPointDraftView { frequency_mhz: Some(v), ..d }, end)),
            Err(e) => Err(e),
        }
    } else if key == "isConnected"@ {
        match fresh(d.is_connected, "isConnected"@, s.boolean_at(pos)) {
            Ok((v, end)) => Ok((AccessPointDraftView { is_connected: Some(v), ..d }, end)),
            Err(e) => Err(e),
        }
    } else {
        Err(Failure::UnknownField { key })
    }
}

/// The access point, once its members are in: the first three are required,
/// the connected flag is false where it never came.
pub open spec fn access_point_finish(d: AccessPointDraftView) -> Result<AccessPointView, Failure> {
    match required(d.mac, "mac"@) {
        Err(e) => Err(e),
        Ok(mac) => match required(d.strength, "strength"@) {
            Err(e) => Err(e),
            Ok(strength) => match required(d.frequency_mhz, "frequencyMhz"@) {
                Err(e) => Err(e),
                Ok(frequency_mhz) => Ok(
                    AccessPointView {
                        mac,
                        strength,
                        frequency_mhz,
                        is_connected: match d.is_connected {
                            Some(b) => b,
                            None => false,
                        },
                    },
                ),
            },
        },
    }
}

pub open spec fn access_point_fields<S: Input>(
    ) -> spec_fn(S, int, Seq<char>, AccessPointDraftView,
) -> Result<
    (AccessPointDraftView, int),
    Failure,
> {
    |s: S, pos: int, key: Seq<char>, d: AccessPointDraftView|
        access_point_field(s, pos, key, d)
}

#[verifier::opaque]
pub open spec fn access_point_at<S: Input>(s: S, pos: int) -> Result<
    (AccessPointView, int),
    Failure,
> {
    finished(
        object_at(s, pos, access_point_empty(), access_point_fields()),
        |d: AccessPointDraftView| access_point_finish(d),
    )
}

pub open spec fn access_point_reader<S: Input>() -> spec_fn(S, int) -> Result<
    (AccessPointView, int),
    Failure,
> {
    |s: S, pos: int| access_point_at(s, pos)
}

pub open spec fn access_points_at<S: Input>(
    s: S,
    pos: int,
) -> Result<(Seq<AccessPointView>, int), Failure> {
    list_at(s, pos, access_point_reader())
}

impl AccessPointDraft {
    pub fn new() -> (r: AccessPointDraft)
        ensures
            r.deep_view() == access_point_empty(),
    {
        AccessPointDraft { mac: None, strength: None, frequency_mhz: None, is_connected: None }
    }

    /// Takes the value at `pos` for the member named `key`.
    pub fn take<S: Input>(&mut self, source: &S, pos: usize, key: String) -> (r: Result<
        usize,
        DecodeError,
    >)
        requires
            pos <= source.extent(),
        ensures
            match r {
                Ok(end) => access_point_field(*source, pos as int, key@, old(self).deep_view())
                    == Ok::<(AccessPointDraftView, int), Failure>(
                    (final(self).deep_view(), end as int),
                ) && pos < end <= source.extent(),
                Err(e) => access_point_field(*source, pos as int, key@, old(self).deep_view())
                    == Err::<(AccessPointDraftView, int), Failure>(e@),
            },
    {
        if key.as_str().eq("mac") {
            if self.mac.is_some() {
                return Err(duplicate_field("mac"));
            }
            let (v, end) = read_address(source, pos, "mac")?;
            self.mac = Some(v);
            Ok(end)
        } else if key.as_str().eq("strength") {
            if self.strength.is_some() {
                return Err(duplicate_field("strength"));
            }
            let (v, end) = read_i8(source, pos, "strength")?;
            self.strength = Some(v);
            Ok(end)
        } else if key.as_str().eq("frequencyMhz") {
            if self.frequency_mhz.is_some() {
                return Err(duplicate_field("frequencyMhz"));
            }
            let (v, end) = read_u16(source, pos, "frequencyMhz")?;
            self.frequency_mhz = Some(v);
            Ok(end)
        } else if key.as_str().eq("isConnected") {
            if self.is_connected.is_some() {
                return Err(duplicate_field("isConnected"));
            }
            let (v, end) = source.read_boolean(pos)?;
            self.is_connected = Some(v);
            Ok(end)
        } else {
            Err(unknown_field(key))
        }
    }

    pub fn finish(self) -> (r: Result<AccessPoint, DecodeError>)
        ensures
            yields_deep(r, access_point_finish(self.deep_view())),
    {
        let mac = match self.mac {
            Some(v) => v,
            None => { return Err(missing_field("mac")); },
        };
        let strength = match self.strength {
            Some(v) => v,
            None => { return Err(missing_field("strength")); },
        };
        let frequency_mhz = match self.frequency_mhz {
            Some(v) => v,
            None => { return Err(missing_field("frequencyMhz")); },
        };
        let is_connected = match self.is_connected {
            Some(b) => b,
            None => false,
        };
        Ok(AccessPoint { mac, strength, frequency_mhz, is_connected })
    }
}

pub fn read_access_point<S: Input>(source: &S, pos: usize) -> (r: Result<
    (AccessPoint, usize),
    DecodeError,
>)
    requires
        pos <= source.extent(),
    ensures
        agrees_deep(r, access_point_at(*source, pos as int)),
        advances(r, pos, source.extent()),
{
    reveal(access_point_at);
    let (some, start) = source.enter_object(pos)?;
    let mut draft = AccessPointDraft::new();
    let mut p = start;
    if some {
        loop
            invariant_except_break
                object_at(*source, pos as int, access_point_empty(), access_point_fields())
                    == members_from(*source, p as int, draft.deep_view(), access_point_fields()),
            invariant
                pos < p <= source.extent(),
            ensures
                pos < p <= source.extent(),
                object_at(*source, pos as int, access_point_empty(), access_point_fields()) == Ok::<
                    (AccessPointDraftView, int),
                    Failure,
                >((draft.deep_view(), p as int)),
            decreases source.extent() - p,
        {
            reveal(access_point_at);
            let (key, at) = source.read_key(p)?;
            let end = draft.take(source, at, key)?;
            let (more, q) = source.next_member(end)?;
            p = q;
            if !more {
                break ;
            }
        }
    }
    let v = draft.finish()?;
    Ok((v, p))
}

pub fn read_access_points<S: Input>(source: &S, pos: usize) -> (r: Result<
    (Vec<AccessPoint>, usize),
    DecodeError,
>)
    requires
        pos <= source.extent(),
    ensures
        agrees_deep(r, access_points_at(*source, pos as int)),
        advances(r, pos, source.extent()),
{
    let (some, start) = source.enter_array(pos)?;
    let mut items: Vec<AccessPoint> = Vec::new();
    let mut p = start;
    assert(items.deep_view() =~= Seq::empty());
    if some {
        loop
            invariant_except_break
                access_points_at(*source, pos as int) == list_from(
                    *source,
                    p as int,
                    items.deep_view(),
                    access_point_reader(),
                ),
            invariant
                pos < p <= source.extent(),
            ensures
                pos < p <= source.extent(),
                access_points_at(*source, pos as int) == Ok::<(Seq<AccessPointView>, int), Failure>(
                    (items.deep_view(), p as int),
                ),
            decreases source.extent() - p,
        {
            let (item, end) = read_access_point(source, p)?;
            let (more, q) = source.next_element(end)?;
            let ghost before = items.deep_view();
            let ghost added = item.deep_view();
            items.push(item);
            assert(items.deep_view() =~= before.push(added));
            p = q;
            if !more {
                break ;
            }
        }
    }
    Ok((items, p))
}

/// The one field of a wifi scan, once it has come.
pub struct WifiScanDraft {
    pub access_points: Option<Option<Vec<AccessPoint>>>,
}

pub struct WifiScanDraftView {
    pub access_points: Option<Option<Seq<AccessPointView>>>,
}

impl DeepView for WifiScanDraft {
    type V = WifiScanDraftView;

    open spec fn deep_view(&self) -> WifiScanDraftView {
        WifiScanDraftView { access_points: self.access_points.deep_view() }
    }
}

pub open spec fn wifi_scan_empty() -> WifiScanDraftView {
    WifiScanDraftView { access_points: None }
}

/// One member of a wifi scan. A key it does not know is read past.
pub open spec fn wifi_scan_field<S: Input>(
    s: S,
    pos: int,
    key: Seq<char>,
    d: WifiScanDraftView,
) -> Result<
    (WifiScanDraftView, int),
    Failure,
> {
    if key == "accessPoints"@ {
        match fresh(
            d.access_points,
            "accessPoints"@,
            optional(s.null_at(pos), access_points_at(s, pos)),
        ) {
            Ok((v, end)) => Ok((WifiScanDraftView { access_points: Some(v) }, end)),
            Err(e) => Err(e),
        }
    } else {
        match s.ignored_at(pos) {
            Ok(end) => Ok((d, end)),
            Err(e) => Err(e),
        }
    }
}

pub open spec fn wifi_scan_finish(d: WifiScanDraftView) -> Result<WifiScanView, Failure> {
    Ok(WifiScanView { access_points: defaulted(d.access_points) })
}

pub open spec fn wifi_scan_fields<S: Input>(
    ) -> spec_fn(S, int, Seq<char>, WifiScanDraftView,
) -> Result<
    (WifiScanDraftView, int),
    Failure,
> {
    |s: S, pos: int, key: Seq<char>, d: WifiScanDraftView| wifi_scan_field(s, pos, key, d)
}

#[verifier::opaque]
pub open spec fn wifi_scan_at<S: Input>(s: S, pos: int) -> Result<(WifiScanView, int), Failure> {
    finished(
        object_at(s, pos, wifi_scan_empty(), wifi_scan_fields()),
        |d: WifiScanDraftView| wifi_scan_finish(d),
    )
}

impl WifiScanDraft {
    pub fn new() -> (r: WifiScanDraft)
        ensures
            r.deep_view() == wifi_scan_empty(),
    {
        WifiScanDraft { access_points: None }
    }

    /// Takes the value at `pos` for the member named `key`.
    pub fn take<S: Input>(&mut self, source: &S, pos: usize, key: String) -> (r: Result<
        usize,
        DecodeError,
    >)
        requires
            pos <= source.extent(),
        ensures
            match r {
                Ok(end) => wifi_scan_field(*source, pos as int, key@, old(self).deep_view()) == Ok::<
                    (WifiScanDraftView, int),
                    Failure,
                >((final(self).deep_view(), end as int)) && pos < end <= source.extent(),
                Err(e) => wifi_scan_field(*source, pos as int, key@, old(self).deep_view()) == Err::<
                    (WifiScanDraftView, int),
                    Failure,
                >(e@),
            },
    {
        if key.as_str().eq("accessPoints") {
            if self.access_points.is_some() {
                return Err(duplicate_field("accessPoints"));
            }
            match source.read_null(pos)? {
                Some(end) => {
                    self.access_points = Some(None);
                    Ok(end)
                },
                None => {
                    let (v, end) = read_access_points(source, pos)?;
                    self.access_points = Some(Some(v));
                    Ok(end)
                },
            }
        } else {
            source.skip_value(pos)
        }
    }

    pub fn finish(self) -> (r: Result<WifiScan, DecodeError>)
        ensures
            yields_deep(r, wifi_scan_finish(self.deep_view())),
    {
        let access_points = match self.access_points {
            Some(v) => v,
            None => None,
        };
        Ok(WifiScan { access_points })
    }
}

pub fn read_wifi_scan<S: Input>(source: &S, pos: usize) -> (r: Result<
    (WifiScan, usize),
    DecodeError,
>)
    requires
        pos <= source.extent(),
    ensures
        agrees_deep(r, wifi_scan_at(*source, pos as int)),
        advances(r, pos, source.extent()),
{
    reveal(wifi_scan_at);
    let (some, start) = source.enter_object(pos)?;
    let mut draft = WifiScanDraft::new();
    let mut p = start;
    if some {
        loop
            invariant_except_break
                object_at(*source, pos as int, wifi_scan_empty(), wifi_scan_fields())
                    == members_from(*source, p as int, draft.deep_view(), wifi_scan_fields()),
            invariant
                pos < p <= source.extent(),
            ensures
                pos < p <= source.extent(),
                object_at(*source, pos as int, wifi_scan_empty(), wifi_scan_fields()) == Ok::<
                    (WifiScanDraftView, int),
                    Failure,
                >((draft.deep_view(), p as int)),
            decreases source.extent() - p,
        {
            reveal(wifi_scan_at);
            let (key, at) = source.read_key(p)?;
            let end = draft.take(source, at, key)?;
            let (more, q) = source.next_member(end)?;
            p = q;
            if !more {
                break ;
            }
        }
    }
    let v = draft.finish()?;
    Ok((v, p))
}

/// The fields of a metadata snapshot that have come so far.
pub struct LocationMetadataDraft {
    pub wifi_scan: Option<Option<WifiScan>>,
    pub active_wifi_scan: Option<Option<WifiScan>>,
    pub timestamp: Option<Timestamp>,
}

pub struct LocationMetadataDraftView {
    pub wifi_scan: Option<Option<WifiScanView>>,
    pub active_wifi_scan: Option<Option<WifiScanView>>,
    pub timestamp: Option<Timestamp>,
}

impl DeepView for LocationMetadataDraft {
    type V = LocationMetadataDraftView;

    open spec fn deep_view(&self) -> LocationMetadataDraftView {
        LocationMetadataDraftView {
            wifi_scan: self.wifi_scan.deep_view(),
            active_wifi_scan: self.active_wifi_scan.deep_view(),
            timestamp: self.timestamp,
        }
    }
}

pub open spec fn location_metadata_empty() -> LocationMetadataDraftView {
    LocationMetadataDraftView { wifi_scan: None, active_wifi_scan: None, timestamp: None }
}

/// One member of a metadata snapshot. Any key but the three is an error.
pub open spec fn location_metadata_field<S: Input>(
    s: S,
    pos: int,
    key: Seq<char>,
    d: LocationMetadataDraftView,
) -> Result<(LocationMetadataDraftView, int), Failure> {
    if key == "wifiScan"@ {
        match fresh(d.wifi_scan, "wifiScan"@, optional(s.null_at(pos), wifi_scan_at(s, pos))) {
            Ok((v, end)) => Ok((LocationMetadataDraftView { wifi_scan: Some(v), ..d }, end)),
            Err(e) => Err(e),
        }
    } else if key == "activeWifiScan"@ {
        match fresh(
            d.active_wifi_scan,
            "activeWifiScan"@,
            optional(s.null_at(pos), wifi_scan_at(s, pos)),
        ) {
            Ok((v, end)) => Ok((LocationMetadataDraftView { active_wifi_scan: Some(v), ..d }, end)),
            Err(e) => Err(e),
        }
    } else if key == "timestamp"@ {
        match fresh(d.timestamp, "timestamp"@, timestamp_at(s, pos, "timestamp"@)) {
            Ok((v, end)) => Ok((LocationMetadataDraftView { timestamp: Some(v), ..d }, end)),
            Err(e) => Err(e),
        }
    } else {
        Err(Failure::UnknownField { key })
    }
}

pub open spec fn location_metadata_finish(d: LocationMetadataDraftView) -> Result<
    LocationMetadataView,
    Failure,
> {
    match required(d.timestamp, "timestamp"@) {
        Err(e) => Err(e),
        Ok(timestamp) => Ok(
            LocationMetadataView {
                wifi_scan: defaulted(d.wifi_scan),
                active_wifi_scan: defaulted(d.active_wifi_scan),
                timestamp,
            },
        ),
    }
}

pub open spec fn location_metadata_fields<S: Input>() -> spec_fn(
    S,
    int,
    Seq<char>,
    LocationMetadataDraftView,
) -> Result<(LocationMetadataDraftView, int), Failure> {
    |s: S, pos: int, key: Seq<char>, d: LocationMetadataDraftView|
        location_metadata_field(s, pos, key, d)
}

#[verifier::opaque]
pub open spec fn location_metadata_at<S: Input>(s: S, pos: int) -> Result<
    (LocationMetadataView, int),
    Failure,
> {
    finished(
        object_at(s, pos, location_metadata_empty(), location_metadata_fields()),
        |d: LocationMetadataDraftView| location_metadata_finish(d),
    )
}

pub open spec fn location_metadata_reader<S: Input>() -> spec_fn(S, int) -> Result<
    (LocationMetadataView, int),
    Failure,
> {
    |s: S, pos: int| location_metadata_at(s, pos)
}

pub open spec fn location_metadata_list_at<S: Input>(s: S, pos: int) -> Result<
    (Seq<LocationMetadataView>, int),
    Failure,
> {
    list_at(s, pos, location_metadata_reader())
}

/// A wifi scan or `null`.
pub fn read_optional_wifi_scan<S: Input>(source: &S, pos: usize) -> (r: Result<
    (Option<WifiScan>, usize),
    DecodeError,
>)
    requires
        pos <= source.extent(),
    ensures
        agrees_deep(r, optional(source.null_at(pos as int), wifi_scan_at(*source, pos as int))),
        advances(r, pos, source.extent()),
{
    match source.read_null(pos)? {
        Some(end) => Ok((None, end)),
        None => {
            let (v, end) = read_wifi_scan(source, pos)?;
            Ok((Some(v), end))
        },
    }
}

impl LocationMetadataDraft {
    pub fn new() -> (r: LocationMetadataDraft)
        ensures
            r.deep_view() == location_metadata_empty(),
    {
        LocationMetadataDraft { wifi_scan: None, active_wifi_scan: None, timestamp: None }
    }

    /// Takes the value at `pos` for the member named `key`.
    pub fn take<S: Input>(&mut self, source: &S, pos: usize, key: String) -> (r: Result<
        usize,
        DecodeError,
    >)
        requires
            pos <= source.extent(),
        ensures
            match r {
                Ok(end) => location_metadata_field(*source, pos as int, key@, old(self).deep_view())
                    == Ok::<(LocationMetadataDraftView, int), Failure>(
                    (final(self).deep_view(), end as int),
                ) && pos < end <= source.extent(),
                Err(e) => location_metadata_field(*source, pos as int, key@, old(self).deep_view())
                    == Err::<(LocationMetadataDraftView, int), Failure>(e@),
            },
    {
        if key.as_str().eq("wifiScan") {
            if self.wifi_scan.is_some() {
                return Err(duplicate_field("wifiScan"));
            }
            let (v, end) = read_optional_wifi_scan(source, pos)?;
            self.wifi_scan = Some(v);
            Ok(end)
        } else if key.as_str().eq("activeWifiScan") {
            if self.active_wifi_scan.is_some() {
                return Err(duplicate_field("activeWifiScan"));
            }
            let (v, end) = read_optional_wifi_scan(source, pos)?;
            self.active_wifi_scan = Some(v);
            Ok(end)
        } else if key.as_str().eq("timestamp") {
            if self.timestamp.is_some() {
                return Err(duplicate_field("timestamp"));
            }
            let (v, end) = read_timestamp(source, pos, "timestamp")?;
            self.timestamp = Some(v);
            Ok(end)
        } else {
            Err(unknown_field(key))
        }
    }

    pub fn finish(self) -> (r: Result<LocationMetadata, DecodeError>)
        ensures
            yields_deep(r, location_metadata_finish(self.deep_view())),
    {
        let timestamp = match self.timestamp {
            Some(v) => v,
            None => { return Err(missing_field("timestamp")); },
        };
        let wifi_scan = match self.wifi_scan {
            Some(v) => v,
            None => None,
        };
        let active_wifi_scan = match self.active_wifi_scan {
            Some(v) => v,
            None => None,
        };
        Ok(LocationMetadata { wifi_scan, active_wifi_scan, timestamp })
    }
}

pub fn read_location_metadata<S: Input>(source: &S, pos: usize) -> (r: Result<
    (LocationMetadata, usize),
    DecodeError,
>)
    requires
        pos <= source.extent(),
    ensures
        agrees_deep(r, location_metadata_at(*source, pos as int)),
        advances(r, pos, source.extent()),
{
    reveal(location_metadata_at);
    let (some, start) = source.enter_object(pos)?;
    let mut draft = LocationMetadataDraft::new();
    let mut p = start;
    if some {
        loop
            invariant_except_break
                object_at(*source, pos as int, location_metadata_empty(), location_metadata_fields())
                    == members_from(
                    *source,
                    p as int,
                    draft.deep_view(),
                    location_metadata_fields(),
                ),
            invariant
                pos < p <= source.extent(),
            ensures
                pos < p <= source.extent(),
                object_at(*source, pos as int, location_metadata_empty(), location_metadata_fields())
                    == Ok::<(LocationMetadataDraftView, int), Failure>(
                    (draft.deep_view(), p as int),
                ),
            decreases source.extent() - p,
        {
            reveal(location_metadata_at);
            let (key, at) = source.read_key(p)?;
            let end = draft.take(source, at, key)?;
            let (more, q) = source.next_member(end)?;
            p = q;
            if !more {
                break ;
            }
        }
    }
    let v = draft.finish()?;
    Ok((v, p))
}

pub fn read_location_metadata_list<S: Input>(source: &S, pos: usize) -> (r: Result<
    (Vec<LocationMetadata>, usize),
    DecodeError,
>)
    requires
        pos <= source.extent(),
    ensures
        agrees_deep(r, location_metadata_list_at(*source, pos as int)),
        advances(r, pos, source.extent()),
{
    let (some, start) = source.enter_array(pos)?;
    let mut items: Vec<LocationMetadata> = Vec::new();
    let mut p = start;
    assert(items.deep_view() =~= Seq::empty());
    if some {
        loop
            invariant_except_break
                location_metadata_list_at(*source, pos as int) == list_from(
                    *source,
                    p as int,
                    items.deep_view(),
                    location_metadata_reader(),
                ),
            invariant
                pos < p <= source.extent(),
            ensures
                pos < p <= source.extent(),
                location_metadata_list_at(*source, pos as int) == Ok::<
                    (Seq<LocationMetadataView>, int),
                    Failure,
                >((items.deep_view(), p as int)),
            decreases source.extent() - p,
        {
            let (item, end) = read_location_metadata(source, p)?;
            let (more, q) = source.next_element(end)?;
            let ghost before = items.deep_view();
            let ghost added = item.deep_view();
            items.push(item);
            assert(items.deep_view() =~= before.push(added));
            p = q;
            if !more {
                break ;
            }
        }
    }
    Ok((items, p))
}

} // verus!
