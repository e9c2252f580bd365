//! The enumerated fields of a record and their exact wire tokens.

use vstd::prelude::*;

verus! {

/// `str`'s own `eq`: two strings are equal exactly where they hold the same
/// characters.
pub assume_specification[ <str as PartialEq>::eq ](a: &str, b: &str) -> (r: bool)
    ensures
        r == (a@ == b@),
;

/// Where a fix came from.
#[derive(Debug, Clone, Copy, PartialEq, Eq, Structural)]
pub enum Source {
    Gps,
    Cell,
    Wifi,
    Unknown,
}

/// What the device believed its carrier was doing.
#[derive(Debug, Clone, Copy, PartialEq, Eq, Structural)]
pub enum ActivityType {
    Still,
    Unknown,
    InVehicle,
    OnFoot,
    Tilting,
    OnBicycle,
    ExitingVehicle,
    Walking,
    Running,
    InRoadVehicle,
    InRailVehicle,
    InFourWheelerVehicle,
    InTwoWheelerVehicle,
    InCar,
    InBus,
}

#[derive(Debug, Clone, Copy, PartialEq, Eq, Structural)]
pub enum DeviceDesignation {
    Unknown,
    Primary,
}

#[derive(Debug, Clone, Copy, PartialEq, Eq, Structural)]
pub enum PlatformType {
    Android,
}

#[derive(Debug, Clone, Copy, PartialEq, Eq, Structural)]
pub enum FormFactor {
    Phone,
}

/// One of the closed token sets; an unknown-variant error names the set that
/// the offending token was held against.
#[derive(Debug, Clone, Copy, PartialEq, Eq, Structural)]
pub enum TokenSet {
    Source,
    ActivityType,
    DeviceDesignation,
    PlatformType,
    FormFactor,
}

impl Source {
    /// The wire token of a variant.
    pub open spec fn wire(self) -> Seq<char> {
        match self {
            Source::Gps => "GPS"@,
            Source::Cell => "CELL"@,
            Source::Wifi => "WIFI"@,
            Source::Unknown => "UNKNOWN"@,
        }
    }

    /// The variant that a token stands for: exact and case-sensitive.
    pub open spec fn of_wire(token: Seq<char>) -> Option<Source> {
        if token == "GPS"@ {
            Some(Source::Gps)
        } else if token == "CELL"@ {
            Some(Source::Cell)
        } else if token == "WIFI"@ {
            Some(Source::Wifi)
        } else if token == "UNKNOWN"@ {
            Some(Source::Unknown)
        } else {
            None
        }
    }

    pub fn token(self) -> (r: &'static str)
        ensures
            r@ == self.wire(),
    {
        match self {
            Source::Gps => "GPS",
            Source::Cell => "CELL",
            Source::Wifi => "WIFI",
            Source::Unknown => "UNKNOWN",
        }
    }

    pub fn from_token(token: &str) -> (r: Option<Source>)
        ensures
            r == Source::of_wire(token@),
    {
        if token.eq("GPS") {
            Some(Source::Gps)
        } else if token.eq("CELL") {
            Some(Source::Cell)
        } else if token.eq("WIFI") {
            Some(Source::Wifi)
        } else if token.eq("UNKNOWN") {
            Some(Source::Unknown)
        } else {
            None
        }
    }

    /// Every variant is read back from its own token.
    pub proof fn wire_round_trip(v: Source)
        ensures
            Source::of_wire(v.wire()) == Some(v),
    {
        reveal_strlit("GPS");
        reveal_strlit("CELL");
        reveal_strlit("WIFI");
        reveal_strlit("UNKNOWN");
        assert("CELL"@[0] != "WIFI"@[0]);
        assert("WIFI"@ != "CELL"@);
        assert("CELL"@.len() != "GPS"@.len());
        assert("UNKNOWN"@.len() != "GPS"@.len());
        assert("UNKNOWN"@.len() != "CELL"@.len());
    }
}

impl ActivityType {
    pub open spec fn wire(self) -> Seq<char> {
        match self {
            ActivityType::Still => "STILL"@,
            ActivityType::Unknown => "UNKNOWN"@,
            ActivityType::InVehicle => "IN_VEHICLE"@,
            ActivityType::OnFoot => "ON_FOOT"@,
            ActivityType::Tilting => "TILTING"@,
            ActivityType::OnBicycle => "ON_BICYCLE"@,
            ActivityType::ExitingVehicle => "EXITING_VEHICLE"@,
            ActivityType::Walking => "WALKING"@,
            ActivityType::Running => "RUNNING"@,
            ActivityType::InRoadVehicle => "IN_ROAD_VEHICLE"@,
            ActivityType::InRailVehicle => "IN_RAIL_VEHICLE"@,
            ActivityType::InFourWheelerVehicle => "IN_FOUR_WHEELER_VEHICLE"@,
            ActivityType::InTwoWheelerVehicle => "IN_TWO_WHEELER_VEHICLE"@,
            ActivityType::InCar => "IN_CAR"@,
            ActivityType::InBus => "IN_BUS"@,
        }
    }

    pub open spec fn of_wire(token: Seq<char>) -> Option<ActivityType> {
        if token == "STILL"@ {
            Some(ActivityType::Still)
        } else if token == "UNKNOWN"@ {
            Some(ActivityType::Unknown)
        } else if token == "IN_VEHICLE"@ {
            Some(ActivityType::InVehicle)
        } else if token == "ON_FOOT"@ {
            Some(ActivityType::OnFoot)
        } else if token == "TILTING"@ {
            Some(ActivityType::Tilting)
        } else if token == "ON_BICYCLE"@ {
            Some(ActivityType::OnBicycle)
        } else if token == "EXITING_VEHICLE"@ {
            Some(ActivityType::ExitingVehicle)
        } else if token == "WALKING"@ {
            Some(ActivityType::Walking)
        } else if token == "RUNNING"@ {
            Some(ActivityType::Running)
        } else if token == "IN_ROAD_VEHICLE"@ {
            Some(ActivityType::InRoadVehicle)
        } else if token == "IN_RAIL_VEHICLE"@ {
            Some(ActivityType::InRailVehicle)
        } else if token == "IN_FOUR_WHEELER_VEHICLE"@ {
            Some(ActivityType::InFourWheelerVehicle)
        } else if token == "IN_TWO_WHEELER_VEHICLE"@ {
            Some(ActivityType::InTwoWheelerVehicle)
        } else if token == "IN_CAR"@ {
            Some(ActivityType::InCar)
        } else if token == "IN_BUS"@ {
            Some(ActivityType::InBus)
        } else {
            None
        }
    }

    pub fn token(self) -> (r: &'static str)
        ensures
            r@ == self.wire(),
    {
        match self {
            ActivityType::Still => "STILL",
            ActivityType::Unknown => "UNKNOWN",
            ActivityType::InVehicle => "IN_VEHICLE",
            ActivityType::OnFoot => "ON_FOOT",
            ActivityType::Tilting => "TILTING",
            ActivityType::OnBicycle => "ON_BICYCLE",
            ActivityType::ExitingVehicle => "EXITING_VEHICLE",
            ActivityType::Walking => "WALKING",
            ActivityType::Running => "RUNNING",
            ActivityType::InRoadVehicle => "IN_ROAD_VEHICLE",
            ActivityType::InRailVehicle => "IN_RAIL_VEHICLE",
            ActivityType::InFourWheelerVehicle => "IN_FOUR_WHEELER_VEHICLE",
            ActivityType::InTwoWheelerVehicle => "IN_TWO_WHEELER_VEHICLE",
            ActivityType::InCar => "IN_CAR",
            ActivityType::InBus => "IN_BUS",
        }
    }

    pub fn from_token(token: &str) -> (r: Option<ActivityType>)
        ensures
            r == ActivityType::of_wire(token@),
    {
        if token.eq("STILL") {
            Some(ActivityType::Still)
        } else if token.eq("UNKNOWN") {
            Some(ActivityType::Unknown)
        } else if token.eq("IN_VEHICLE") {
            Some(ActivityType::InVehicle)
        } else if token.eq("ON_FOOT") {
            Some(ActivityType::OnFoot)
        } else if token.eq("TILTING") {
            Some(ActivityType::Tilting)
        } else if token.eq("ON_BICYCLE") {
            Some(ActivityType::OnBicycle)
        } else if token.eq("EXITING_VEHICLE") {
            Some(ActivityType::ExitingVehicle)
        } else if token.eq("WALKING") {
            Some(ActivityType::Walking)
        } else if token.eq("RUNNING") {
            Some(ActivityType::Running)
        } else if token.eq("IN_ROAD_VEHICLE") {
            Some(ActivityType::InRoadVehicle)
        } else if token.eq("IN_RAIL_VEHICLE") {
            Some(ActivityType::InRailVehicle)
        } else if token.eq("IN_FOUR_WHEELER_VEHICLE") {
            Some(ActivityType::InFourWheelerVehicle)
        } else if token.eq("IN_TWO_WHEELER_VEHICLE") {
            Some(ActivityType::InTwoWheelerVehicle)
        } else if token.eq("IN_CAR") {
            Some(ActivityType::InCar)
        } else if token.eq("IN_BUS") {
            Some(ActivityType::InBus)
        } else {
            None
        }
    }

    /// Every variant is read back from its own token.
    pub proof fn wire_round_trip(v: ActivityType)
        ensures
            ActivityType::of_wire(v.wire()) == Some(v),
    {
        reveal_strlit("STILL");
        reveal_strlit("UNKNOWN");
        reveal_strlit("IN_VEHICLE");
        reveal_strlit("ON_FOOT");
        reveal_strlit("TILTING");
        reveal_strlit("ON_BICYCLE");
        reveal_strlit("EXITING_VEHICLE");
        reveal_strlit("WALKING");
        reveal_strlit("RUNNING");
        reveal_strlit("IN_ROAD_VEHICLE");
        reveal_strlit("IN_RAIL_VEHICLE");
        reveal_strlit("IN_FOUR_WHEELER_VEHICLE");
        reveal_strlit("IN_TWO_WHEELER_VEHICLE");
        reveal_strlit("IN_CAR");
        reveal_strlit("IN_BUS");
        assert("UNKNOWN"@[0] != "ON_FOOT"@[0]);
        assert("UNKNOWN"@ != "ON_FOOT"@);
        assert("UNKNOWN"@[0] != "TILTING"@[0]);
        assert("UNKNOWN"@ != "TILTING"@);
        assert("UNKNOWN"@[0] != "WALKING"@[0]);
        assert("UNKNOWN"@ != "WALKING"@);
        assert("UNKNOWN"@[0] != "RUNNING"@[0]);
        assert("UNKNOWN"@ != "RUNNING"@);
        assert("ON_FOOT"@[0] != "TILTING"@[0]);
        assert("ON_FOOT"@ != "TILTING"@);
        assert("ON_FOOT"@[0] != "WALKING"@[0]);
        assert("ON_FOOT"@ != "WALKING"@);
        assert("ON_FOOT"@[0] != "RUNNING"@[0]);
        assert("ON_FOOT"@ != "RUNNING"@);
        assert("TILTING"@[0] != "WALKING"@[0]);
        assert("TILTING"@ != "WALKING"@);
        assert("TILTING"@[0] != "RUNNING"@[0]);
        assert("TILTING"@ != "RUNNING"@);
        assert("WALKING"@[0] != "RUNNING"@[0]);
        assert("WALKING"@ != "RUNNING"@);
        assert("IN_VEHICLE"@[0] != "ON_BICYCLE"@[0]);
        assert("IN_VEHICLE"@ != "ON_BICYCLE"@);
        assert("IN_ROAD_VEHICLE"@[4] != "IN_RAIL_VEHICLE"@[4]);
        assert("IN_ROAD_VEHICLE"@ != "IN_RAIL_VEHICLE"@);
        assert("IN_ROAD_VEHICLE"@[0] != "EXITING_VEHICLE"@[0]);
        assert("IN_ROAD_VEHICLE"@ != "EXITING_VEHICLE"@);
        assert("IN_RAIL_VEHICLE"@[0] != "EXITING_VEHICLE"@[0]);
        assert("IN_RAIL_VEHICLE"@ != "EXITING_VEHICLE"@);
        assert("IN_CAR"@[3] != "IN_BUS"@[3]);
        assert("IN_CAR"@ != "IN_BUS"@);
        assert("STILL"@.len() == 5);
        assert("UNKNOWN"@.len() == 7);
        assert("IN_VEHICLE"@.len() == 10);
        assert("ON_FOOT"@.len() == 7);
        assert("TILTING"@.len() == 7);
        assert("ON_BICYCLE"@.len() == 10);
        assert("EXITING_VEHICLE"@.len() == 15);
        assert("WALKING"@.len() == 7);
        assert("RUNNING"@.len() == 7);
        assert("IN_ROAD_VEHICLE"@.len() == 15);
        assert("IN_RAIL_VEHICLE"@.len() == 15);
        assert("IN_FOUR_WHEELER_VEHICLE"@.len() == 23);
        assert("IN_TWO_WHEELER_VEHICLE"@.len() == 22);
        assert("IN_CAR"@.len() == 6);
        assert("IN_BUS"@.len() == 6);
    }
}

impl DeviceDesignation {
    pub open spec fn wire(self) -> Seq<char> {
        match self {
            DeviceDesignation::Unknown => "UNKNOWN"@,
            DeviceDesignation::Primary => "PRIMARY"@,
        }
    }

    pub open spec fn of_wire(token: Seq<char>) -> Option<DeviceDesignation> {
        if token == "UNKNOWN"@ {
            Some(DeviceDesignation::Unknown)
        } else if token == "PRIMARY"@ {
            Some(DeviceDesignation::Primary)
        } else {
            None
        }
    }

    pub fn token(self) -> (r: &'static str)
        ensures
            r@ == self.wire(),
    {
        match self {
            DeviceDesignation::Unknown => "UNKNOWN",
            DeviceDesignation::Primary => "PRIMARY",
        }
    }

    pub fn from_token(token: &str) -> (r: Option<DeviceDesignation>)
        ensures
            r == DeviceDesignation::of_wire(token@),
    {
        if token.eq("UNKNOWN") {
            Some(DeviceDesignation::Unknown)
        } else if token.eq("PRIMARY") {
            Some(DeviceDesignation::Primary)
        } else {
            None
        }
    }

    /// Every variant is read back from its own token.
    pub proof fn wire_round_trip(v: DeviceDesignation)
        ensures
            DeviceDesignation::of_wire(v.wire()) == Some(v),
    {
        reveal_strlit("UNKNOWN");
        reveal_strlit("PRIMARY");
        assert("UNKNOWN"@[0] != "PRIMARY"@[0]);
    }
}

impl PlatformType {
    pub open spec fn wire(self) -> Seq<char> {
        "ANDROID"@
    }

    pub open spec fn of_wire(token: Seq<char>) -> Option<PlatformType> {
        if token == "ANDROID"@ {
            Some(PlatformType::Android)
        } else {
            None
        }
    }

    pub fn token(self) -> (r: &'static str)
        ensures
            r@ == self.wire(),
    {
        "ANDROID"
    }

    pub fn from_token(token: &str) -> (r: Option<PlatformType>)
        ensures
            r == PlatformType::of_wire(token@),
    {
        if token.eq("ANDROID") {
            Some(PlatformType::Android)
        } else {
            None
        }
    }

    /// Every variant is read back from its own token.
    pub proof fn wire_round_trip(v: PlatformType)
        ensures
            PlatformType::of_wire(v.wire()) == Some(v),
    {
    }
}

impl FormFactor {
    pub open spec fn wire(self) -> Seq<char> {
        "PHONE"@
    }

    pub open spec fn of_wire(token: Seq<char>) -> Option<FormFactor> {
        if token == "PHONE"@ {
            Some(FormFactor::Phone)
        } else {
            None
        }
    }

    pub fn token(self) -> (r: &'static str)
        ensures
            r@ == self.wire(),
    {
        "PHONE"
    }

    pub fn from_token(token: &str) -> (r: Option<FormFactor>)
        ensures
            r == FormFactor::of_wire(token@),
    {
        if token.eq("PHONE") {
            Some(FormFactor::Phone)
        } else {
            None
        }
    }

    /// Every variant is read back from its own token.
    pub proof fn wire_round_trip(v: FormFactor)
        ensures
            FormFactor::of_wire(v.wire()) == Some(v),
    {
    }
}

impl TokenSet {
    /// The name of the field that holds a token of this set.
    pub open spec fn field_name(self) -> Seq<char> {
        match self {
            TokenSet::Source => "source"@,
            TokenSet::ActivityType => "type"@,
            TokenSet::DeviceDesignation => "deviceDesignation"@,
            TokenSet::PlatformType => "platformType"@,
            TokenSet::FormFactor => "formFactor"@,
        }
    }

    /// Whether the set holds the token.
    pub open spec fn admits(self, token: Seq<char>) -> bool {
        match self {
            TokenSet::Source => Source::of_wire(token) is Some,
            TokenSet::ActivityType => ActivityType::of_wire(token) is Some,
            TokenSet::DeviceDesignation => DeviceDesignation::of_wire(token) is Some,
            TokenSet::PlatformType => PlatformType::of_wire(token) is Some,
            TokenSet::FormFactor => FormFactor::of_wire(token) is Some,
        }
    }

    pub fn field(self) -> (r: &'static str)
        ensures
            r@ == self.field_name(),
    {
        match self {
            TokenSet::Source => "source",
            TokenSet::ActivityType => "type",
            TokenSet::DeviceDesignation => "deviceDesignation",
            TokenSet::PlatformType => "platformType",
            TokenSet::FormFactor => "formFactor",
        }
    }

    pub fn contains(self, token: &str) -> (r: bool)
        ensures
            r == self.admits(token@),
    {
        match self {
            TokenSet::Source => Source::from_token(token).is_some(),
            TokenSet::ActivityType => ActivityType::from_token(token).is_some(),
            TokenSet::DeviceDesignation => DeviceDesignation::from_token(token).is_some(),
            TokenSet::PlatformType => PlatformType::from_token(token).is_some(),
            TokenSet::FormFactor => FormFactor::from_token(token).is_some(),
        }
    }
}

} // verus!
