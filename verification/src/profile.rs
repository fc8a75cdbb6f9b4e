//! Field catalogs of the message profiles.
//!
//! Each message profile (File-Id, Activity, Session, Lap, Event, Record,
//! Workout, Workout-Step) is a closed set of named fields, each carrying a
//! fixed wire triple: field number, byte size and base-type code.  The
//! [`FitFieldDefinition`] trait is the capability contract through which the
//! encoder reads those triples.

use vstd::prelude::*;

use crate::types::FitBaseType;

verus! {

/// A named field of some message profile, able to report its wire triple.
pub trait FitFieldDefinition {
    /// Base type of the field.
    spec fn spec_base_type(&self) -> FitBaseType;

    /// Field definition number inside its message profile.
    spec fn spec_field_number(&self) -> u8;

    /// Base type of the field.
    fn base_type(&self) -> (t: FitBaseType)
        ensures
            t == self.spec_base_type(),
    ;

    /// Field definition number inside its message profile.
    fn field_number(&self) -> (n: u8)
        ensures
            n == self.spec_field_number(),
    ;

    /// The three bytes of the field definition as they appear on the wire:
    /// field number, byte size, base-type code.
    fn get(&self) -> (r: [u8; 3])
        ensures
            r@ == field_def_bytes(self.spec_field_number(), self.spec_base_type()),
    {
        let r = [self.field_number(), self.base_type().size() as u8, self.base_type().code()];
        assert(r@ =~= field_def_bytes(self.spec_field_number(), self.spec_base_type()));
        r
    }
}

/// Wire triple of a field definition: field number, byte size, base-type
/// code.
pub open spec fn field_def_bytes(number: u8, base_type: FitBaseType) -> Seq<u8> {
    seq![number, base_type.spec_size() as u8, base_type.spec_code()]
}

/// Fields of the File-Id message profile.
#[derive(Debug, Clone, Copy, PartialEq, Eq, Structural)]
pub enum FitFileIdFieldDefinition {
    Type,  // Required
    Manufacturer,  // Required
    Product,
    SerialNumber,
    TimeCreated,  // Required
    Number,
    ProductName,
}

impl FitFieldDefinition for FitFileIdFieldDefinition {
    open spec fn spec_base_type(&self) -> FitBaseType {
        match self {
            FitFileIdFieldDefinition::Type => FitBaseType::Enum,
            FitFileIdFieldDefinition::Manufacturer => FitBaseType::Uint16,
            FitFileIdFieldDefinition::Product => FitBaseType::Uint16,
            FitFileIdFieldDefinition::SerialNumber => FitBaseType::Uint32z,
            FitFileIdFieldDefinition::TimeCreated => FitBaseType::Uint32,
            FitFileIdFieldDefinition::Number => FitBaseType::Uint16,
            FitFileIdFieldDefinition::ProductName => FitBaseType::String,
        }
    }

    open spec fn spec_field_number(&self) -> u8 {
        match self {
            FitFileIdFieldDefinition::Type => 0,
            FitFileIdFieldDefinition::Manufacturer => 1,
            FitFileIdFieldDefinition::Product => 2,
            FitFileIdFieldDefinition::SerialNumber => 3,
            FitFileIdFieldDefinition::TimeCreated => 4,
            FitFileIdFieldDefinition::Number => 5,
            FitFileIdFieldDefinition::ProductName => 8,
        }
    }

    fn base_type(&self) -> FitBaseType {
        match self {
            Self::Type => FitBaseType::Enum,
            Self::Manufacturer => FitBaseType::Uint16,
            Self::Product => FitBaseType::Uint16,
            Self::SerialNumber => FitBaseType::Uint32z,
            Self::TimeCreated => FitBaseType::Uint32,
            Self::Number => FitBaseType::Uint16,
            Self::ProductName => FitBaseType::String,
        }
    }

    fn field_number(&self) -> u8 {
        match self {
            Self::Type => 0,
            Self::Manufacturer => 1,
            Self::Product => 2,
            Self::SerialNumber => 3,
            Self::TimeCreated => 4,
            Self::Number => 5,
            Self::ProductName => 8,
        }
    }
}

/// Fields of the Activity message profile.
#[derive(Debug, Clone, Copy, PartialEq, Eq, Structural)]
pub enum FitActivityFieldDefinition {
    Timestamp,
    TotalTimerTime,
    NumSessions,
    Type,
    Event,
    EventType,
    LocalTimestamp,
    EventGroup,
}

impl FitFieldDefinition for FitActivityFieldDefinition {
    open spec fn spec_base_type(&self) -> FitBaseType {
        match self {
            FitActivityFieldDefinition::Timestamp => FitBaseType::Uint32,
            FitActivityFieldDefinition::TotalTimerTime => FitBaseType::Uint32,
            FitActivityFieldDefinition::NumSessions => FitBaseType::Uint16,
            FitActivityFieldDefinition::Type => FitBaseType::Enum,
            FitActivityFieldDefinition::Event => FitBaseType::Enum,
            FitActivityFieldDefinition::EventType => FitBaseType::Enum,
            FitActivityFieldDefinition::LocalTimestamp => FitBaseType::Uint32,
            FitActivityFieldDefinition::EventGroup => FitBaseType::Uint8,
        }
    }

    open spec fn spec_field_number(&self) -> u8 {
        match self {
            FitActivityFieldDefinition::Timestamp => 253,
            FitActivityFieldDefinition::TotalTimerTime => 0,
            FitActivityFieldDefinition::NumSessions => 1,
            FitActivityFieldDefinition::Type => 2,
            FitActivityFieldDefinition::Event => 3,
            FitActivityFieldDefinition::EventType => 4,
            FitActivityFieldDefinition::LocalTimestamp => 5,
            FitActivityFieldDefinition::EventGroup => 6,
        }
    }

    fn base_type(&self) -> FitBaseType {
        match self {
            Self::Timestamp => FitBaseType::Uint32,
            Self::TotalTimerTime => FitBaseType::Uint32,
            Self::NumSessions => FitBaseType::Uint16,
            Self::Type => FitBaseType::Enum,
            Self::Event => FitBaseType::Enum,
            Self::EventType => FitBaseType::Enum,
            Self::LocalTimestamp => FitBaseType::Uint32,
            Self::EventGroup => FitBaseType::Uint8,
        }
    }

    fn field_number(&self) -> u8 {
        match self {
            Self::Timestamp => 253,
            Self::TotalTimerTime => 0,
            Self::NumSessions => 1,
            Self::Type => 2,
            Self::Event => 3,
            Self::EventType => 4,
            Self::LocalTimestamp => 5,
            Self::EventGroup => 6,
        }
    }
}

/// Fields of the Session message profile.
#[derive(Debug, Clone, Copy, PartialEq, Eq, Structural)]
pub enum FitSessionFieldDefinition {
    Timestamp,
    StartTime,
    TotalElapsedTime,
    TotalTimerTime,
    TotalDistance,
    MessageIndex,
}

impl FitFieldDefinition for FitSessionFieldDefinition {
    open spec fn spec_base_type(&self) -> FitBaseType {
        match self {
            FitSessionFieldDefinition::Timestamp => FitBaseType::Uint32,
            FitSessionFieldDefinition::StartTime => FitBaseType::Uint32,
            FitSessionFieldDefinition::TotalElapsedTime => FitBaseType::Uint32,
            FitSessionFieldDefinition::TotalTimerTime => FitBaseType::Uint32,
            FitSessionFieldDefinition::TotalDistance => FitBaseType::Uint32,
            FitSessionFieldDefinition::MessageIndex => FitBaseType::Uint16,
        }
    }

    open spec fn spec_field_number(&self) -> u8 {
        match self {
            FitSessionFieldDefinition::Timestamp => 253,
            FitSessionFieldDefinition::StartTime => 2,
            FitSessionFieldDefinition::TotalElapsedTime => 7,
            FitSessionFieldDefinition::TotalTimerTime => 8,
            FitSessionFieldDefinition::TotalDistance => 9,
            FitSessionFieldDefinition::MessageIndex => 254,
        }
    }

    fn base_type(&self) -> FitBaseType {
        match self {
            Self::Timestamp => FitBaseType::Uint32,
            Self::StartTime => FitBaseType::Uint32,
            Self::TotalElapsedTime => FitBaseType::Uint32,
            Self::TotalTimerTime => FitBaseType::Uint32,
            Self::TotalDistance => FitBaseType::Uint32,
            Self::MessageIndex => FitBaseType::Uint16,
        }
    }

    fn field_number(&self) -> u8 {
        match self {
            Self::Timestamp => 253,
            Self::StartTime => 2,
            Self::TotalElapsedTime => 7,
            Self::TotalTimerTime => 8,
            Self::TotalDistance => 9,
            Self::MessageIndex => 254,
        }
    }
}

/// Fields of the Lap message profile.
#[derive(Debug, Clone, Copy, PartialEq, Eq, Structural)]
pub enum FitLapFieldDefinition {
    StartTime,
    StartPositionLat,
    StartPositionLong,
    EndPositionLat,
    EndPositionLong,
    TotalElapsedTime,
    TotalTimerTime,
    TotalDistance,
    TotalCalories,
    AverageSpeed,
    MaxSpeed,
    AverageHeartRate,
    MaxHeartRate,
    Sport,
    SubSport,
    Timestamp,
    MessageIndex,
}

impl FitFieldDefinition for FitLapFieldDefinition {
    open spec fn spec_base_type(&self) -> FitBaseType {
        match self {
            FitLapFieldDefinition::StartTime => FitBaseType::Uint32,
            FitLapFieldDefinition::StartPositionLat => FitBaseType::Sint32,
            FitLapFieldDefinition::StartPositionLong => FitBaseType::Sint32,
            FitLapFieldDefinition::EndPositionLat => FitBaseType::Sint32,
            FitLapFieldDefinition::EndPositionLong => FitBaseType::Sint32,
            FitLapFieldDefinition::TotalElapsedTime => FitBaseType::Uint32,
            FitLapFieldDefinition::TotalTimerTime => FitBaseType::Uint32,
            FitLapFieldDefinition::TotalDistance => FitBaseType::Uint32,
            FitLapFieldDefinition::TotalCalories => FitBaseType::Uint16,
            FitLapFieldDefinition::AverageSpeed => FitBaseType::Uint16,
            FitLapFieldDefinition::MaxSpeed => FitBaseType::Uint16,
            FitLapFieldDefinition::AverageHeartRate => FitBaseType::Uint8,
            FitLapFieldDefinition::MaxHeartRate => FitBaseType::Uint8,
            FitLapFieldDefinition::Sport => FitBaseType::Enum,
            FitLapFieldDefinition::SubSport => FitBaseType::Enum,
            FitLapFieldDefinition::Timestamp => FitBaseType::Uint32,
            FitLapFieldDefinition::MessageIndex => FitBaseType::Uint16,
        }
    }

    open spec fn spec_field_number(&self) -> u8 {
        match self {
            FitLapFieldDefinition::StartTime => 2,
            FitLapFieldDefinition::StartPositionLat => 3,
            FitLapFieldDefinition::StartPositionLong => 4,
            FitLapFieldDefinition::EndPositionLat => 5,
            FitLapFieldDefinition::EndPositionLong => 6,
            FitLapFieldDefinition::TotalElapsedTime => 7,
            FitLapFieldDefinition::TotalTimerTime => 8,
            FitLapFieldDefinition::TotalDistance => 9,
            FitLapFieldDefinition::TotalCalories => 11,
            FitLapFieldDefinition::AverageSpeed => 13,
            FitLapFieldDefinition::MaxSpeed => 14,
            FitLapFieldDefinition::AverageHeartRate => 15,
            FitLapFieldDefinition::MaxHeartRate => 16,
            FitLapFieldDefinition::Sport => 25,
            FitLapFieldDefinition::SubSport => 39,
            FitLapFieldDefinition::Timestamp => 253,
            FitLapFieldDefinition::MessageIndex => 254,
        }
    }

    fn base_type(&self) -> FitBaseType {
        match self {
            Self::StartTime => FitBaseType::Uint32,
            Self::StartPositionLat => FitBaseType::Sint32,
            Self::StartPositionLong => FitBaseType::Sint32,
            Self::EndPositionLat => FitBaseType::Sint32,
            Self::EndPositionLong => FitBaseType::Sint32,
            Self::TotalElapsedTime => FitBaseType::Uint32,
            Self::TotalTimerTime => FitBaseType::Uint32,
            Self::TotalDistance => FitBaseType::Uint32,
            Self::TotalCalories => FitBaseType::Uint16,
            Self::AverageSpeed => FitBaseType::Uint16,
            Self::MaxSpeed => FitBaseType::Uint16,
            Self::AverageHeartRate => FitBaseType::Uint8,
            Self::MaxHeartRate => FitBaseType::Uint8,
            Self::Sport => FitBaseType::Enum,
            Self::SubSport => FitBaseType::Enum,
            Self::Timestamp => FitBaseType::Uint32,
            Self::MessageIndex => FitBaseType::Uint16,
        }
    }

    fn field_number(&self) -> u8 {
        match self {
            Self::StartTime => 2,
            Self::StartPositionLat => 3,
            Self::StartPositionLong => 4,
            Self::EndPositionLat => 5,
            Self::EndPositionLong => 6,
            Self::TotalElapsedTime => 7,
            Self::TotalTimerTime => 8,
            Self::TotalDistance => 9,
            Self::TotalCalories => 11,
            Self::AverageSpeed => 13,
            Self::MaxSpeed => 14,
            Self::AverageHeartRate => 15,
            Self::MaxHeartRate => 16,
            Self::Sport => 25,
            Self::SubSport => 39,
            Self::Timestamp => 253,
            Self::MessageIndex => 254,
        }
    }
}

/// Fields of the Event message profile.
#[derive(Debug, Clone, Copy, PartialEq, Eq, Structural)]
pub enum FitEventFieldDefinition {
    Timestamp,
    Event,
    EventType,
    Data16,
    Data,
}

impl FitFieldDefinition for FitEventFieldDefinition {
    open spec fn spec_base_type(&self) -> FitBaseType {
        match self {
            FitEventFieldDefinition::Timestamp => FitBaseType::Uint32,
            FitEventFieldDefinition::Event => FitBaseType::Enum,
            FitEventFieldDefinition::EventType => FitBaseType::Enum,
            FitEventFieldDefinition::Data16 => FitBaseType::Uint16,
            FitEventFieldDefinition::Data => FitBaseType::Uint32,
        }
    }

    open spec fn spec_field_number(&self) -> u8 {
        match self {
            FitEventFieldDefinition::Timestamp => 253,
            FitEventFieldDefinition::Event => 0,
            FitEventFieldDefinition::EventType => 1,
            FitEventFieldDefinition::Data16 => 2,
            FitEventFieldDefinition::Data => 3,
        }
    }

    fn base_type(&self) -> FitBaseType {
        match self {
            Self::Timestamp => FitBaseType::Uint32,
            Self::Event => FitBaseType::Enum,
            Self::EventType => FitBaseType::Enum,
            Self::Data16 => FitBaseType::Uint16,
            Self::Data => FitBaseType::Uint32,
        }
    }

    fn field_number(&self) -> u8 {
        match self {
            Self::Timestamp => 253,
            Self::Event => 0,
            Self::EventType => 1,
            Self::Data16 => 2,
            Self::Data => 3,
        }
    }
}

/// Fields of the Record message profile.
#[derive(Debug, Clone, Copy, PartialEq, Eq, Structural)]
pub enum FitRecordFieldDefinition {
    PositionLat,
    PositionLong,
    Altitude,
    HeartRate,
    Speed,
    Timestamp,
}

impl FitFieldDefinition for FitRecordFieldDefinition {
    open spec fn spec_base_type(&self) -> FitBaseType {
        match self {
            FitRecordFieldDefinition::PositionLat => FitBaseType::Sint32,
            FitRecordFieldDefinition::PositionLong => FitBaseType::Sint32,
            FitRecordFieldDefinition::Altitude => FitBaseType::Uint16,
            FitRecordFieldDefinition::HeartRate => FitBaseType::Uint8,
            FitRecordFieldDefinition::Speed => FitBaseType::Uint16,
            FitRecordFieldDefinition::Timestamp => FitBaseType::Uint32,
        }
    }

    open spec fn spec_field_number(&self) -> u8 {
        match self {
            FitRecordFieldDefinition::PositionLat => 0,
            FitRecordFieldDefinition::PositionLong => 1,
            FitRecordFieldDefinition::Altitude => 2,
            FitRecordFieldDefinition::HeartRate => 3,
            FitRecordFieldDefinition::Speed => 6,
            FitRecordFieldDefinition::Timestamp => 253,
        }
    }

    fn base_type(&self) -> FitBaseType {
        match self {
            Self::PositionLat => FitBaseType::Sint32,
            Self::PositionLong => FitBaseType::Sint32,
            Self::Altitude => FitBaseType::Uint16,
            Self::HeartRate => FitBaseType::Uint8,
            Self::Speed => FitBaseType::Uint16,
            Self::Timestamp => FitBaseType::Uint32,
        }
    }

    fn field_number(&self) -> u8 {
        match self {
            Self::PositionLat => 0,
            Self::PositionLong => 1,
            Self::Altitude => 2,
            Self::HeartRate => 3,
            Self::Speed => 6,
            Self::Timestamp => 253,
        }
    }
}

/// Fields of the Workout message profile.
#[derive(Debug, Clone, Copy, PartialEq, Eq, Structural)]
pub enum FitWorkoutFieldDefinition {
    MessageIndex,
    Sport,
    NumValidSteps,
    WorkoutName,
    SubSport,
    PoolLength,
    PoolLengthUnit,
    WorkoutDescription,
}

impl FitFieldDefinition for FitWorkoutFieldDefinition {
    open spec fn spec_base_type(&self) -> FitBaseType {
        match self {
            FitWorkoutFieldDefinition::MessageIndex => FitBaseType::Uint16,
            FitWorkoutFieldDefinition::Sport => FitBaseType::Enum,
            FitWorkoutFieldDefinition::NumValidSteps => FitBaseType::Uint16,
            FitWorkoutFieldDefinition::WorkoutName => FitBaseType::String,
            FitWorkoutFieldDefinition::SubSport => FitBaseType::Enum,
            FitWorkoutFieldDefinition::PoolLength => FitBaseType::Uint16,
            FitWorkoutFieldDefinition::PoolLengthUnit => FitBaseType::Enum,
            FitWorkoutFieldDefinition::WorkoutDescription => FitBaseType::String,
        }
    }

    open spec fn spec_field_number(&self) -> u8 {
        match self {
            FitWorkoutFieldDefinition::MessageIndex => 254,
            FitWorkoutFieldDefinition::Sport => 4,
            FitWorkoutFieldDefinition::NumValidSteps => 6,
            FitWorkoutFieldDefinition::WorkoutName => 8,
            FitWorkoutFieldDefinition::SubSport => 11,
            FitWorkoutFieldDefinition::PoolLength => 14,
            FitWorkoutFieldDefinition::PoolLengthUnit => 15,
            FitWorkoutFieldDefinition::WorkoutDescription => 17,
        }
    }

    fn base_type(&self) -> FitBaseType {
        match self {
            Self::MessageIndex => FitBaseType::Uint16,
            Self::Sport => FitBaseType::Enum,
            Self::NumValidSteps => FitBaseType::Uint16,
            Self::WorkoutName => FitBaseType::String,
            Self::SubSport => FitBaseType::Enum,
            Self::PoolLength => FitBaseType::Uint16,
            Self::PoolLengthUnit => FitBaseType::Enum,
            Self::WorkoutDescription => FitBaseType::String,
        }
    }

    fn field_number(&self) -> u8 {
        match self {
            Self::MessageIndex => 254,
            Self::Sport => 4,
            Self::NumValidSteps => 6,
            Self::WorkoutName => 8,
            Self::SubSport => 11,
            Self::PoolLength => 14,
            Self::PoolLengthUnit => 15,
            Self::WorkoutDescription => 17,
        }
    }
}

/// Fields of the Workout-Step message profile.
#[derive(Debug, Clone, Copy, PartialEq, Eq, Structural)]
pub enum FitWorkoutStepFieldDefinition {
    MessageIndex,
    DurationType,
    DurationValue,
    DurationTime,
    DurationDistance,
    DurationCalories,
    DurationStep,
    TargetType,
    TargetValue,
}

impl FitFieldDefinition for FitWorkoutStepFieldDefinition {
    open spec fn spec_base_type(&self) -> FitBaseType {
        match self {
            FitWorkoutStepFieldDefinition::MessageIndex => FitBaseType::Uint16,
            FitWorkoutStepFieldDefinition::DurationType => FitBaseType::Enum,
            FitWorkoutStepFieldDefinition::DurationValue => FitBaseType::Uint32,
            FitWorkoutStepFieldDefinition::DurationTime => FitBaseType::Uint32,
            FitWorkoutStepFieldDefinition::DurationDistance => FitBaseType::Uint32,
            FitWorkoutStepFieldDefinition::DurationCalories => FitBaseType::Uint32,
            FitWorkoutStepFieldDefinition::DurationStep => FitBaseType::Uint32,
            FitWorkoutStepFieldDefinition::TargetType => FitBaseType::Enum,
            FitWorkoutStepFieldDefinition::TargetValue => FitBaseType::Uint32,
        }
    }

    open spec fn spec_field_number(&self) -> u8 {
        match self {
            FitWorkoutStepFieldDefinition::MessageIndex => 254,
            FitWorkoutStepFieldDefinition::DurationType => 1,
            FitWorkoutStepFieldDefinition::DurationValue => 2,
            FitWorkoutStepFieldDefinition::DurationTime => 2,
            FitWorkoutStepFieldDefinition::DurationDistance => 2,
            FitWorkoutStepFieldDefinition::DurationCalories => 2,
            FitWorkoutStepFieldDefinition::DurationStep => 2,
            FitWorkoutStepFieldDefinition::TargetType => 3,
            FitWorkoutStepFieldDefinition::TargetValue => 4,
        }
    }

    fn base_type(&self) -> FitBaseType {
        match self {
            Self::MessageIndex => FitBaseType::Uint16,
            Self::DurationType => FitBaseType::Enum,
            Self::DurationValue => FitBaseType::Uint32,
            Self::DurationTime => FitBaseType::Uint32,
            Self::DurationDistance => FitBaseType::Uint32,
            Self::DurationCalories => FitBaseType::Uint32,
            Self::DurationStep => FitBaseType::Uint32,
            Self::TargetType => FitBaseType::Enum,
            Self::TargetValue => FitBaseType::Uint32,
        }
    }

    fn field_number(&self) -> u8 {
        match self {
            Self::MessageIndex => 254,
            Self::DurationType => 1,
            Self::DurationValue => 2,
            Self::DurationTime => 2,
            Self::DurationDistance => 2,
            Self::DurationCalories => 2,
            Self::DurationStep => 2,
            Self::TargetType => 3,
            Self::TargetValue => 4,
        }
    }
}
} // verus!
