//! Wire-level value catalogs of the FIT format.
//!
//! Each enum is a closed set of named variants; its `code` method gives the
//! byte (or 16-bit) value that the format assigns to the variant, and each
//! `code` is pinned to a spec twin so the encoder's contracts can speak of
//! the emitted bytes exactly.

use vstd::prelude::*;

verus! {

/// Primitive wire encoding of a field value.
#[derive(Debug, Clone, Copy, PartialEq, Eq, Structural)]
pub enum FitBaseType {
    Enum,
    Sint8,
    Uint8,
    Sint16,
    Uint16,
    Sint32,
    Uint32,
    String,
    Float32,
    Float64,
    Uint8z,
    Uint16z,
    Uint32z,
    Byte,
    Sint64,
    Uint64,
    Uint64z,
}

impl FitBaseType {
    /// Fixed byte size of a value of this base type; `String` is variable
    /// sized and reported as 1 (the caller supplies the real size).
    pub open spec fn spec_size(&self) -> usize {
        match self {
            FitBaseType::Sint8 => 1,
            FitBaseType::Uint8 => 1,
            FitBaseType::Uint8z => 1,
            FitBaseType::Byte => 1,
            FitBaseType::Enum => 1,
            FitBaseType::Sint16 => 2,
            FitBaseType::Uint16 => 2,
            FitBaseType::Uint16z => 2,
            FitBaseType::Sint32 => 4,
            FitBaseType::Uint32 => 4,
            FitBaseType::Float32 => 4,
            FitBaseType::Uint32z => 4,
            FitBaseType::Float64 => 8,
            FitBaseType::Sint64 => 8,
            FitBaseType::Uint64 => 8,
            FitBaseType::Uint64z => 8,
            FitBaseType::String => 1,
        }
    }

    /// Fixed byte size of a value of this base type.
    pub fn size(&self) -> (n: usize)
        ensures
            n == self.spec_size(),
            1 <= n <= 8,
    {
        match self {
            Self::Sint8 | Self::Uint8 | Self::Uint8z | Self::Byte | Self::Enum => 1,
            Self::Sint16 | Self::Uint16 | Self::Uint16z => 2,
            Self::Sint32 | Self::Uint32 | Self::Float32 | Self::Uint32z => 4,
            Self::Float64 | Self::Sint64 | Self::Uint64 | Self::Uint64z => 8,
            Self::String => 1,  // Variable.
        }
    }

    /// Base-type byte written into a field definition.
    pub open spec fn spec_code(&self) -> u8 {
        match self {
            FitBaseType::Enum => 0,
            FitBaseType::Sint8 => 1,
            FitBaseType::Uint8 => 2,
            FitBaseType::Sint16 => 131,
            FitBaseType::Uint16 => 132,
            FitBaseType::Sint32 => 133,
            FitBaseType::Uint32 => 134,
            FitBaseType::String => 7,
            FitBaseType::Float32 => 136,
            FitBaseType::Float64 => 137,
            FitBaseType::Uint8z => 10,
            FitBaseType::Uint16z => 139,
            FitBaseType::Uint32z => 140,
            FitBaseType::Byte => 13,
            FitBaseType::Sint64 => 142,
            FitBaseType::Uint64 => 143,
            FitBaseType::Uint64z => 144,
        }
    }

    /// Base-type byte written into a field definition.
    pub fn code(&self) -> (c: u8)
        ensures
            c == self.spec_code(),
    {
        match self {
            Self::Enum => 0,
            Self::Sint8 => 1,
            Self::Uint8 => 2,
            Self::Sint16 => 131,
            Self::Uint16 => 132,
            Self::Sint32 => 133,
            Self::Uint32 => 134,
            Self::String => 7,
            Self::Float32 => 136,
            Self::Float64 => 137,
            Self::Uint8z => 10,
            Self::Uint16z => 139,
            Self::Uint32z => 140,
            Self::Byte => 13,
            Self::Sint64 => 142,
            Self::Uint64 => 143,
            Self::Uint64z => 144,
        }
    }
}

/// Intent of a FIT file, written as the Type field of the File-Id message.
#[derive(Debug, Clone, Copy, PartialEq, Eq, Structural)]
pub enum FitFileType {
    Device,
    Settings,
    Sport,
    Activity,
    Workout,
    Course,
}

impl FitFileType {
    /// Wire value of the file type.
    pub open spec fn spec_code(&self) -> u8 {
        match self {
            FitFileType::Device => 1,
            FitFileType::Settings => 2,
            FitFileType::Sport => 3,
            FitFileType::Activity => 4,
            FitFileType::Workout => 5,
            FitFileType::Course => 6,
        }
    }

    /// Wire value of the file type.
    pub fn code(&self) -> (c: u8)
        ensures
            c == self.spec_code(),
    {
        match self {
            Self::Device => 1,
            Self::Settings => 2,
            Self::Sport => 3,
            Self::Activity => 4,
            Self::Workout => 5,
            Self::Course => 6,
        }
    }
}

/// Manufacturer identifier written into the File-Id message.
#[derive(Debug, Clone, Copy, PartialEq, Eq, Structural)]
pub enum FitFileManufacturerType {
    Garmin,
    Zephyr,
    Development,
    Decathlon,
}

impl FitFileManufacturerType {
    /// Wire value of the manufacturer.
    pub open spec fn spec_code(&self) -> u16 {
        match self {
            FitFileManufacturerType::Garmin => 1,
            FitFileManufacturerType::Zephyr => 3,
            FitFileManufacturerType::Development => 255,
            FitFileManufacturerType::Decathlon => 310,
        }
    }

    /// Wire value of the manufacturer.
    pub fn code(&self) -> (c: u16)
        ensures
            c == self.spec_code(),
    {
        match self {
            Self::Garmin => 1,
            Self::Zephyr => 3,
            Self::Development => 255,
            Self::Decathlon => 310,
        }
    }
}

/// Numeric identifier of a message profile.
#[derive(Debug, Clone, Copy, PartialEq, Eq, Structural)]
pub enum FitGlobalMessageType {
    FileId,
    Capabilities,
    Session,
    Lap,
    Record,
    Event,
    Workout,
    WorkoutStep,
    Activity,
}

impl FitGlobalMessageType {
    /// Global message number of the profile.
    pub open spec fn spec_code(&self) -> u16 {
        match self {
            FitGlobalMessageType::FileId => 0,
            FitGlobalMessageType::Capabilities => 1,
            FitGlobalMessageType::Session => 18,
            FitGlobalMessageType::Lap => 19,
            FitGlobalMessageType::Record => 20,
            FitGlobalMessageType::Event => 21,
            FitGlobalMessageType::Workout => 26,
            FitGlobalMessageType::WorkoutStep => 27,
            FitGlobalMessageType::Activity => 34,
        }
    }

    /// Global message number of the profile.
    pub fn code(&self) -> (c: u16)
        ensures
            c == self.spec_code(),
    {
        match self {
            Self::FileId => 0,
            Self::Capabilities => 1,
            Self::Session => 18,
            Self::Lap => 19,
            Self::Record => 20,
            Self::Event => 21,
            Self::Workout => 26,
            Self::WorkoutStep => 27,
            Self::Activity => 34,
        }
    }
}

/// Kind of an Activity message.
#[derive(Debug, Clone, Copy, PartialEq, Eq, Structural)]
pub enum FitActivityType {
    Manual,
    AutoMultiSport,
}

impl FitActivityType {
    /// Wire value of the variant.
    pub open spec fn spec_code(&self) -> u8 {
        match self {
            FitActivityType::Manual => 0,
            FitActivityType::AutoMultiSport => 1,
        }
    }

    /// Wire value of the variant.
    pub fn code(&self) -> (c: u8)
        ensures
            c == self.spec_code(),
    {
        match self {
            Self::Manual => 0,
            Self::AutoMultiSport => 1,
        }
    }
}

/// Event named by an Event message.
#[derive(Debug, Clone, Copy, PartialEq, Eq, Structural)]
pub enum FitEventType {
    Timer,
    Workout,
    WorkoutStep,
    PowerDown,
    PowerUp,
    OffCourse,
    Session,
    Lap,
    CoursePoint,
    Battery,
    Activity,
    Length,
}

impl FitEventType {
    /// Wire value of the variant.
    pub open spec fn spec_code(&self) -> u8 {
        match self {
            FitEventType::Timer => 0,
            FitEventType::Workout => 3,
            FitEventType::WorkoutStep => 4,
            FitEventType::PowerDown => 5,
            FitEventType::PowerUp => 6,
            FitEventType::OffCourse => 7,
            FitEventType::Session => 8,
            FitEventType::Lap => 9,
            FitEventType::CoursePoint => 10,
            FitEventType::Battery => 11,
            FitEventType::Activity => 26,
            FitEventType::Length => 28,
        }
    }

    /// Wire value of the variant.
    pub fn code(&self) -> (c: u8)
        ensures
            c == self.spec_code(),
    {
        match self {
            Self::Timer => 0,
            Self::Workout => 3,
            Self::WorkoutStep => 4,
            Self::PowerDown => 5,
            Self::PowerUp => 6,
            Self::OffCourse => 7,
            Self::Session => 8,
            Self::Lap => 9,
            Self::CoursePoint => 10,
            Self::Battery => 11,
            Self::Activity => 26,
            Self::Length => 28,
        }
    }
}

/// Phase of an event.
#[derive(Debug, Clone, Copy, PartialEq, Eq, Structural)]
pub enum FitEventTypeType {
    Start,
    Stop,
    ConsecutiveDepreciated,
    Marker,
    StopAll,
    BeginDepreciated,
    EndDepreciated,
    EndAllDepreciated,
    StopDisable,
    StopDisableAll,
}

impl FitEventTypeType {
    /// Wire value of the variant.
    pub open spec fn spec_code(&self) -> u8 {
        match self {
            FitEventTypeType::Start => 0,
            FitEventTypeType::Stop => 1,
            FitEventTypeType::ConsecutiveDepreciated => 2,
            FitEventTypeType::Marker => 3,
            FitEventTypeType::StopAll => 4,
            FitEventTypeType::BeginDepreciated => 5,
            FitEventTypeType::EndDepreciated => 6,
            FitEventTypeType::EndAllDepreciated => 7,
            FitEventTypeType::StopDisable => 8,
            FitEventTypeType::StopDisableAll => 9,
        }
    }

    /// Wire value of the variant.
    pub fn code(&self) -> (c: u8)
        ensures
            c == self.spec_code(),
    {
        match self {
            Self::Start => 0,
            Self::Stop => 1,
            Self::ConsecutiveDepreciated => 2,
            Self::Marker => 3,
            Self::StopAll => 4,
            Self::BeginDepreciated => 5,
            Self::EndDepreciated => 6,
            Self::EndAllDepreciated => 7,
            Self::StopDisable => 8,
            Self::StopDisableAll => 9,
        }
    }
}

/// Sport of a session or lap.
#[derive(Debug, Clone, Copy, PartialEq, Eq, Structural)]
pub enum FitSportType {
    Generic,
    Running,
    Cycling,
    Transition,
    FitnessEquipment,
    Swimming,
    Basketball,
    Soccer,
    Tennis,
    AmericanFootball,
    Training,
    Walking,
    CrossCountrySkiing,
    AlpineSkiing,
    Snowboarding,
    Rowing,
    Mountaineering,
    Hiking,
    Multisport,
    Paddling,
    Flying,
    EBiking,
    Motorcycling,
    Boating,
    Driving,
    Golf,
    HangGliding,
    HorsebackRiding,
    Hunting,
    Fishing,
    InlineSkating,
    RockClimbing,
    Sailing,
    IceSkating,
    SkyDiving,
    Snowshoeing,
    Snowmobiling,
    StandUpPaddleboarding,
    Surfing,
    Wakeboarding,
    WaterSkiing,
    Kayaking,
    Rafting,
    Windsurfing,
    Kitesurfing,
    Tactical,
    Jumpmaster,
    Boxing,
    All,
}

impl FitSportType {
    /// Wire value of the variant.
    pub open spec fn spec_code(&self) -> u8 {
        match self {
            FitSportType::Generic => 0,
            FitSportType::Running => 1,
            FitSportType::Cycling => 2,
            FitSportType::Transition => 3,
            FitSportType::FitnessEquipment => 4,
            FitSportType::Swimming => 5,
            FitSportType::Basketball => 6,
            FitSportType::Soccer => 7,
            FitSportType::Tennis => 8,
            FitSportType::AmericanFootball => 9,
            FitSportType::Training => 10,
            FitSportType::Walking => 11,
            FitSportType::CrossCountrySkiing => 12,
            FitSportType::AlpineSkiing => 13,
            FitSportType::Snowboarding => 14,
            FitSportType::Rowing => 15,
            FitSportType::Mountaineering => 16,
            FitSportType::Hiking => 17,
            FitSportType::Multisport => 18,
            FitSportType::Paddling => 19,
            FitSportType::Flying => 20,
            FitSportType::EBiking => 21,
            FitSportType::Motorcycling => 22,
            FitSportType::Boating => 23,
            FitSportType::Driving => 24,
            FitSportType::Golf => 25,
            FitSportType::HangGliding => 26,
            FitSportType::HorsebackRiding => 27,
            FitSportType::Hunting => 28,
            FitSportType::Fishing => 29,
            FitSportType::InlineSkating => 30,
            FitSportType::RockClimbing => 31,
            FitSportType::Sailing => 32,
            FitSportType::IceSkating => 33,
            FitSportType::SkyDiving => 34,
            FitSportType::Snowshoeing => 35,
            FitSportType::Snowmobiling => 36,
            FitSportType::StandUpPaddleboarding => 37,
            FitSportType::Surfing => 38,
            FitSportType::Wakeboarding => 39,
            FitSportType::WaterSkiing => 40,
            FitSportType::Kayaking => 41,
            FitSportType::Rafting => 42,
            FitSportType::Windsurfing => 43,
            FitSportType::Kitesurfing => 44,
            FitSportType::Tactical => 45,
            FitSportType::Jumpmaster => 46,
            FitSportType::Boxing => 47,
            FitSportType::All => 254,
        }
    }

    /// Wire value of the variant.
    pub fn code(&self) -> (c: u8)
        ensures
            c == self.spec_code(),
    {
        match self {
            Self::Generic => 0,
            Self::Running => 1,
            Self::Cycling => 2,
            Self::Transition => 3,
            Self::FitnessEquipment => 4,
            Self::Swimming => 5,
            Self::Basketball => 6,
            Self::Soccer => 7,
            Self::Tennis => 8,
            Self::AmericanFootball => 9,
            Self::Training => 10,
            Self::Walking => 11,
            Self::CrossCountrySkiing => 12,
            Self::AlpineSkiing => 13,
            Self::Snowboarding => 14,
            Self::Rowing => 15,
            Self::Mountaineering => 16,
            Self::Hiking => 17,
            Self::Multisport => 18,
            Self::Paddling => 19,
            Self::Flying => 20,
            Self::EBiking => 21,
            Self::Motorcycling => 22,
            Self::Boating => 23,
            Self::Driving => 24,
            Self::Golf => 25,
            Self::HangGliding => 26,
            Self::HorsebackRiding => 27,
            Self::Hunting => 28,
            Self::Fishing => 29,
            Self::InlineSkating => 30,
            Self::RockClimbing => 31,
            Self::Sailing => 32,
            Self::IceSkating => 33,
            Self::SkyDiving => 34,
            Self::Snowshoeing => 35,
            Self::Snowmobiling => 36,
            Self::StandUpPaddleboarding => 37,
            Self::Surfing => 38,
            Self::Wakeboarding => 39,
            Self::WaterSkiing => 40,
            Self::Kayaking => 41,
            Self::Rafting => 42,
            Self::Windsurfing => 43,
            Self::Kitesurfing => 44,
            Self::Tactical => 45,
            Self::Jumpmaster => 46,
            Self::Boxing => 47,
            Self::All => 254,
        }
    }
}

/// Sub-sport refining the sport.
#[derive(Debug, Clone, Copy, PartialEq, Eq, Structural)]
pub enum FitSubSportType {
    Generic,
    Treadmill,
    Street,
    Trail,
    Track,
    Spin,
    IndoorCycling,
    Road,
    Mountain,
    Downhill,
    Recumbent,
    Cyclocross,
    HandCycling,
    TrackCycling,
    IndoorRowing,
    Elliptical,
    StairClimbing,
    LapSwimming,
    OpenWater,
    FlexibilityTraining,
    StrengthTraining,
    WarmUp,
    Match,
    Exercise,
    Challenge,
    IndoorSkiing,
    CardioTraining,
    IndoorWalking,
    EBikeFitness,
    Bmx,
    CasualWalking,
    SpeedWalking,
    BikeToRunTransition,
    RunToBikeTransition,
    SwimToBikeTransition,
    Atv,
    Motocross,
    Backcountry,
    Resort,
    RcDrone,
    Wingsuit,
    Whitewater,
    SkateSkiing,
    Yoga,
    Pilates,
    IndoorRunning,
    GravelCycling,
    EBikeMountain,
    Commuting,
    MixedSurface,
    Navigate,
    TrackMe,
    MapMode,
    SingleGasDiving,
    MultiGasDiving,
    GaugeDiving,
    ApneaDiving,
    ApneaHunting,
    VirtualActivity,
    Obstacle,
}

impl FitSubSportType {
    /// Wire value of the variant.
    pub open spec fn spec_code(&self) -> u8 {
        match self {
            FitSubSportType::Generic => 0,
            FitSubSportType::Treadmill => 1,
            FitSubSportType::Street => 2,
            FitSubSportType::Trail => 3,
            FitSubSportType::Track => 4,
            FitSubSportType::Spin => 5,
            FitSubSportType::IndoorCycling => 6,
            FitSubSportType::Road => 7,
            FitSubSportType::Mountain => 8,
            FitSubSportType::Downhill => 9,
            FitSubSportType::Recumbent => 10,
            FitSubSportType::Cyclocross => 11,
            FitSubSportType::HandCycling => 12,
            FitSubSportType::TrackCycling => 13,
            FitSubSportType::IndoorRowing => 14,
            FitSubSportType::Elliptical => 15,
            FitSubSportType::StairClimbing => 16,
            FitSubSportType::LapSwimming => 17,
            FitSubSportType::OpenWater => 18,
            FitSubSportType::FlexibilityTraining => 19,
            FitSubSportType::StrengthTraining => 20,
            FitSubSportType::WarmUp => 21,
            FitSubSportType::Match => 22,
            FitSubSportType::Exercise => 23,
            FitSubSportType::Challenge => 24,
            FitSubSportType::IndoorSkiing => 25,
            FitSubSportType::CardioTraining => 26,
            FitSubSportType::IndoorWalking => 27,
            FitSubSportType::EBikeFitness => 28,
            FitSubSportType::Bmx => 29,
            FitSubSportType::CasualWalking => 30,
            FitSubSportType::SpeedWalking => 31,
            FitSubSportType::BikeToRunTransition => 32,
            FitSubSportType::RunToBikeTransition => 33,
            FitSubSportType::SwimToBikeTransition => 34,
            FitSubSportType::Atv => 35,
            FitSubSportType::Motocross => 36,
            FitSubSportType::Backcountry => 37,
            FitSubSportType::Resort => 38,
            FitSubSportType::RcDrone => 39,
            FitSubSportType::Wingsuit => 40,
            FitSubSportType::Whitewater => 41,
            FitSubSportType::SkateSkiing => 42,
            FitSubSportType::Yoga => 43,
            FitSubSportType::Pilates => 44,
            FitSubSportType::IndoorRunning => 45,
            FitSubSportType::GravelCycling => 46,
            FitSubSportType::EBikeMountain => 47,
            FitSubSportType::Commuting => 48,
            FitSubSportType::MixedSurface => 49,
            FitSubSportType::Navigate => 50,
            FitSubSportType::TrackMe => 51,
            FitSubSportType::MapMode => 52,
            FitSubSportType::SingleGasDiving => 53,
            FitSubSportType::MultiGasDiving => 54,
            FitSubSportType::GaugeDiving => 55,
            FitSubSportType::ApneaDiving => 56,
            FitSubSportType::ApneaHunting => 57,
            FitSubSportType::VirtualActivity => 58,
            FitSubSportType::Obstacle => 59,
        }
    }

    /// Wire value of the variant.
    pub fn code(&self) -> (c: u8)
        ensures
            c == self.spec_code(),
    {
        match self {
            Self::Generic => 0,
            Self::Treadmill => 1,
            Self::Street => 2,
            Self::Trail => 3,
            Self::Track => 4,
            Self::Spin => 5,
            Self::IndoorCycling => 6,
            Self::Road => 7,
            Self::Mountain => 8,
            Self::Downhill => 9,
            Self::Recumbent => 10,
            Self::Cyclocross => 11,
            Self::HandCycling => 12,
            Self::TrackCycling => 13,
            Self::IndoorRowing => 14,
            Self::Elliptical => 15,
            Self::StairClimbing => 16,
            Self::LapSwimming => 17,
            Self::OpenWater => 18,
            Self::FlexibilityTraining => 19,
            Self::StrengthTraining => 20,
            Self::WarmUp => 21,
            Self::Match => 22,
            Self::Exercise => 23,
            Self::Challenge => 24,
            Self::IndoorSkiing => 25,
            Self::CardioTraining => 26,
            Self::IndoorWalking => 27,
            Self::EBikeFitness => 28,
            Self::Bmx => 29,
            Self::CasualWalking => 30,
            Self::SpeedWalking => 31,
            Self::BikeToRunTransition => 32,
            Self::RunToBikeTransition => 33,
            Self::SwimToBikeTransition => 34,
            Self::Atv => 35,
            Self::Motocross => 36,
            Self::Backcountry => 37,
            Self::Resort => 38,
            Self::RcDrone => 39,
            Self::Wingsuit => 40,
            Self::Whitewater => 41,
            Self::SkateSkiing => 42,
            Self::Yoga => 43,
            Self::Pilates => 44,
            Self::IndoorRunning => 45,
            Self::GravelCycling => 46,
            Self::EBikeMountain => 47,
            Self::Commuting => 48,
            Self::MixedSurface => 49,
            Self::Navigate => 50,
            Self::TrackMe => 51,
            Self::MapMode => 52,
            Self::SingleGasDiving => 53,
            Self::MultiGasDiving => 54,
            Self::GaugeDiving => 55,
            Self::ApneaDiving => 56,
            Self::ApneaHunting => 57,
            Self::VirtualActivity => 58,
            Self::Obstacle => 59,
        }
    }
}

/// How long a workout step lasts.
#[derive(Debug, Clone, Copy, PartialEq, Eq, Structural)]
pub enum FitWorkoutStepDuration {
    Time,
    Distance,
    HrLessThan,
    HrGreaterThan,
    Calories,
    Open,
}

impl FitWorkoutStepDuration {
    /// Wire value of the variant.
    pub open spec fn spec_code(&self) -> u8 {
        match self {
            FitWorkoutStepDuration::Time => 0,
            FitWorkoutStepDuration::Distance => 1,
            FitWorkoutStepDuration::HrLessThan => 2,
            FitWorkoutStepDuration::HrGreaterThan => 3,
            FitWorkoutStepDuration::Calories => 4,
            FitWorkoutStepDuration::Open => 5,
        }
    }

    /// Wire value of the variant.
    pub fn code(&self) -> (c: u8)
        ensures
            c == self.spec_code(),
    {
        match self {
            Self::Time => 0,
            Self::Distance => 1,
            Self::HrLessThan => 2,
            Self::HrGreaterThan => 3,
            Self::Calories => 4,
            Self::Open => 5,
        }
    }
}

/// Target quantity of a workout step.
#[derive(Debug, Clone, Copy, PartialEq, Eq, Structural)]
pub enum FitWorkoutStepTarget {
    Speed,
    HeartRate,
    Open,
    Cadence,
    Power,
    Grade,
    Resistance,
    Power3s,
    Power10s,
    Power30s,
    PowerLap,
    SwimStroke,
    SpeedLap,
    HeartRateLap,
}

impl FitWorkoutStepTarget {
    /// Wire value of the variant.
    pub open spec fn spec_code(&self) -> u8 {
        match self {
            FitWorkoutStepTarget::Speed => 0,
            FitWorkoutStepTarget::HeartRate => 1,
            FitWorkoutStepTarget::Open => 2,
            FitWorkoutStepTarget::Cadence => 3,
            FitWorkoutStepTarget::Power => 4,
            FitWorkoutStepTarget::Grade => 5,
            FitWorkoutStepTarget::Resistance => 6,
            FitWorkoutStepTarget::Power3s => 7,
            FitWorkoutStepTarget::Power10s => 8,
            FitWorkoutStepTarget::Power30s => 9,
            FitWorkoutStepTarget::PowerLap => 10,
            FitWorkoutStepTarget::SwimStroke => 11,
            FitWorkoutStepTarget::SpeedLap => 12,
            FitWorkoutStepTarget::HeartRateLap => 13,
        }
    }

    /// Wire value of the variant.
    pub fn code(&self) -> (c: u8)
        ensures
            c == self.spec_code(),
    {
        match self {
            Self::Speed => 0,
            Self::HeartRate => 1,
            Self::Open => 2,
            Self::Cadence => 3,
            Self::Power => 4,
            Self::Grade => 5,
            Self::Resistance => 6,
            Self::Power3s => 7,
            Self::Power10s => 8,
            Self::Power30s => 9,
            Self::PowerLap => 10,
            Self::SwimStroke => 11,
            Self::SpeedLap => 12,
            Self::HeartRateLap => 13,
        }
    }
}

/// Unit system shown to the user.
#[derive(Debug, Clone, Copy, PartialEq, Eq, Structural)]
pub enum FitDisplayMeasureType {
    Metric,
    Statue,
    Nautical,
}

impl FitDisplayMeasureType {
    /// Wire value of the variant.
    pub open spec fn spec_code(&self) -> u8 {
        match self {
            FitDisplayMeasureType::Metric => 0,
            FitDisplayMeasureType::Statue => 1,
            FitDisplayMeasureType::Nautical => 2,
        }
    }

    /// Wire value of the variant.
    pub fn code(&self) -> (c: u8)
        ensures
            c == self.spec_code(),
    {
        match self {
            Self::Metric => 0,
            Self::Statue => 1,
            Self::Nautical => 2,
        }
    }
}
} // verus!
