//! The records of a location-history export and their parts.
//!
//! Coordinates are kept as they are written: degrees scaled by ten million,
//! in a signed 32-bit integer.

pub use crate::codec::{MacAddr, Timestamp};
pub use crate::tokens::{ActivityType, DeviceDesignation, FormFactor, PlatformType, Source};
use vstd::prelude::*;

verus! {

/// A point as (longitude, latitude), both in degrees scaled by ten million.
#[derive(Debug, Clone, Copy, PartialEq, Eq, Structural)]
pub struct LngLat(pub i32, pub i32);

impl LngLat {
    #[must_use]
    pub fn lng(&self) -> (r: i32)
        ensures
            r == self.0,
    {
        self.0
    }

    #[must_use]
    pub fn lat(&self) -> (r: i32)
        ensures
            r == self.1,
    {
        self.1
    }
}

impl From<(i32, i32)> for LngLat {
    fn from(pair: (i32, i32)) -> (r: Self) {
        LngLat(pair.0, pair.1)
    }
}

impl vstd::std_specs::convert::FromSpecImpl<(i32, i32)> for LngLat {
    open spec fn obeys_from_spec() -> bool {
        true
    }

    open spec fn from_spec(pair: (i32, i32)) -> Self {
        LngLat(pair.0, pair.1)
    }
}

/// One activity the device considered, with its confidence in percent.
#[derive(Debug, Clone, Copy)]
pub struct ActivityConfidence {
    pub typ: ActivityType,
    pub confidence: u8,
}

/// The activities considered at one instant.
#[derive(Debug, Clone)]
pub struct Activity {
    pub activity: Vec<ActivityConfidence>,
    pub timestamp: Timestamp,
}

pub struct ActivityView {
    pub activity: Seq<ActivityConfidence>,
    pub timestamp: Timestamp,
}

#[derive(Debug, Clone)]
pub struct AccessPoint {
    pub mac: MacAddr,
    /// Signal strength.
    pub strength: i8,
    pub frequency_mhz: u16,
    pub is_connected: bool,
}

pub struct AccessPointView {
    pub mac: Seq<u8>,
    pub strength: i8,
    pub frequency_mhz: u16,
    pub is_connected: bool,
}

#[derive(Debug, Clone)]
pub struct WifiScan {
    pub access_points: Option<Vec<AccessPoint>>,
}

pub struct WifiScanView {
    pub access_points: Option<Seq<AccessPointView>>,
}

#[derive(Debug, Clone)]
pub struct LocationMetadata {
    pub wifi_scan: Option<WifiScan>,
    pub active_wifi_scan: Option<WifiScan>,
    pub timestamp: Timestamp,
}

pub struct LocationMetadataView {
    pub wifi_scan: Option<WifiScanView>,
    pub active_wifi_scan: Option<WifiScanView>,
    pub timestamp: Timestamp,
}

/// A fix: where, when, and how exactly.
#[derive(Debug, Clone, Copy)]
pub struct Location {
    pub timestamp: Timestamp,
    pub latitude_e7: i32,
    pub longitude_e7: i32,
    pub accuracy: i32,
}

/// One record of the export.
#[derive(Debug, Clone)]
pub struct LocationEntry {
    pub location: Location,
    /// Velocity in meters per second.
    pub velocity: Option<u32>,
    /// Heading (degrees).
    pub heading: Option<u16>,
    pub source: Source,
    pub device_tag: i32,
    pub activity: Option<Vec<Activity>>,
    pub altitude: Option<i32>,
    pub vertical_accuracy: Option<i32>,
    pub device_designation: Option<DeviceDesignation>,
    pub active_wifi_scan: Option<WifiScan>,
    pub platform_type: Option<PlatformType>,
    pub os_level: Option<u8>,
    pub server_timestamp: Option<Timestamp>,
    pub device_timestamp: Option<Timestamp>,
    pub battery_charging: Option<bool>,
    pub form_factor: Option<FormFactor>,
    pub location_metadata: Option<Vec<LocationMetadata>>,
    pub inferred_location: Option<Vec<Location>>,
    pub place_id: Option<String>,
}

pub struct LocationEntryView {
    pub location: Location,
    pub velocity: Option<u32>,
    pub heading: Option<u16>,
    pub source: Source,
    pub device_tag: i32,
    pub activity: Option<Seq<ActivityView>>,
    pub altitude: Option<i32>,
    pub vertical_accuracy: Option<i32>,
    pub device_designation: Option<DeviceDesignation>,
    pub active_wifi_scan: Option<WifiScanView>,
    pub platform_type: Option<PlatformType>,
    pub os_level: Option<u8>,
    pub server_timestamp: Option<Timestamp>,
    pub device_timestamp: Option<Timestamp>,
    pub battery_charging: Option<bool>,
    pub form_factor: Option<FormFactor>,
    pub location_metadata: Option<Seq<LocationMetadataView>>,
    pub inferred_location: Option<Seq<Location>>,
    pub place_id: Option<Seq<char>>,
}

impl DeepView for ActivityConfidence {
    type V = ActivityConfidence;

    open spec fn deep_view(&self) -> ActivityConfidence {
        *self
    }
}

impl DeepView for Activity {
    type V = ActivityView;

    open spec fn deep_view(&self) -> ActivityView {
        ActivityView { activity: self.activity.deep_view(), timestamp: self.timestamp }
    }
}

impl DeepView for AccessPoint {
    type V = AccessPointView;

    open spec fn deep_view(&self) -> AccessPointView {
        AccessPointView {
            mac: self.mac.octets(),
            strength: self.strength,
            frequency_mhz: self.frequency_mhz,
            is_connected: self.is_connected,
        }
    }
}

impl DeepView for WifiScan {
    type V = WifiScanView;

    open spec fn deep_view(&self) -> WifiScanView {
        WifiScanView { access_points: self.access_points.deep_view() }
    }
}

impl DeepView for LocationMetadata {
    type V = LocationMetadataView;

    open spec fn deep_view(&self) -> LocationMetadataView {
        LocationMetadataView {
            wifi_scan: self.wifi_scan.deep_view(),
            active_wifi_scan: self.active_wifi_scan.deep_view(),
            timestamp: self.timestamp,
        }
    }
}

impl DeepView for Location {
    type V = Location;

    open spec fn deep_view(&self) -> Location {
        *self
    }
}

impl DeepView for LocationEntry {
    type V = LocationEntryView;

    open spec fn deep_view(&self) -> LocationEntryView {
        LocationEntryView {
            location: self.location,
            velocity: self.velocity,
            heading: self.heading,
            source: self.source,
            device_tag: self.device_tag,
            activity: self.activity.deep_view(),
            altitude: self.altitude,
            vertical_accuracy: self.vertical_accuracy,
            device_designation: self.device_designation,
            active_wifi_scan: self.active_wifi_scan.deep_view(),
            platform_type: self.platform_type,
            os_level: self.os_level,
            server_timestamp: self.server_timestamp,
            device_timestamp: self.device_timestamp,
            battery_charging: self.battery_charging,
            form_factor: self.form_factor,
            location_metadata: self.location_metadata.deep_view(),
            inferred_location: self.inferred_location.deep_view(),
            place_id: self.place_id.deep_view(),
        }
    }
}

impl LocationEntry {
    #[must_use]
    pub fn timestamp(&self) -> (r: Timestamp)
        ensures
            r == self.location.timestamp,
    {
        self.location.timestamp
    }

    #[must_use]
    pub fn lnglat(&self) -> (r: LngLat)
        ensures
            r == LngLat(self.location.longitude_e7, self.location.latitude_e7),
    {
        LngLat(self.location.longitude_e7, self.location.latitude_e7)
    }
}

} // verus!
