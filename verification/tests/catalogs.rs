use fitfile::FitActivityType;
use fitfile::FitBaseType;
use fitfile::FitDisplayMeasureType;
use fitfile::FitEventType;
use fitfile::FitEventTypeType;
use fitfile::FitFieldDefinition;
use fitfile::FitFileIdFieldDefinition;
use fitfile::FitFileManufacturerType;
use fitfile::FitFileType;
use fitfile::FitGlobalMessageType;
use fitfile::FitLapFieldDefinition;
use fitfile::FitMessageArchitecture;
use fitfile::FitProtocolVersion;
use fitfile::FitRecordFieldDefinition;
use fitfile::FitSportType;
use fitfile::FitSubSportType;
use fitfile::FitWorkoutFieldDefinition;
use fitfile::FitWorkoutStepDuration;
use fitfile::FitWorkoutStepTarget;

#[test]
fn base_type_sizes() {
    assert_eq!(FitBaseType::Enum.size(), 1);
    assert_eq!(FitBaseType::Uint8z.size(), 1);
    assert_eq!(FitBaseType::Byte.size(), 1);
    assert_eq!(FitBaseType::Sint16.size(), 2);
    assert_eq!(FitBaseType::Uint16z.size(), 2);
    assert_eq!(FitBaseType::Sint32.size(), 4);
    assert_eq!(FitBaseType::Float32.size(), 4);
    assert_eq!(FitBaseType::Float64.size(), 8);
    assert_eq!(FitBaseType::Uint64z.size(), 8);
    // String is variable sized; the engine reports 1 and the caller
    // supplies the real size
    assert_eq!(FitBaseType::String.size(), 1);
}

#[test]
fn base_type_codes() {
    assert_eq!(FitBaseType::Enum.code(), 0);
    assert_eq!(FitBaseType::Sint8.code(), 1);
    assert_eq!(FitBaseType::String.code(), 7);
    assert_eq!(FitBaseType::Uint16.code(), 132);
    assert_eq!(FitBaseType::Sint32.code(), 133);
    assert_eq!(FitBaseType::Uint64z.code(), 144);
}

#[test]
fn global_message_numbers() {
    assert_eq!(FitGlobalMessageType::FileId.code(), 0);
    assert_eq!(FitGlobalMessageType::Capabilities.code(), 1);
    assert_eq!(FitGlobalMessageType::Session.code(), 18);
    assert_eq!(FitGlobalMessageType::Lap.code(), 19);
    assert_eq!(FitGlobalMessageType::Record.code(), 20);
    assert_eq!(FitGlobalMessageType::Event.code(), 21);
    assert_eq!(FitGlobalMessageType::Workout.code(), 26);
    assert_eq!(FitGlobalMessageType::WorkoutStep.code(), 27);
    assert_eq!(FitGlobalMessageType::Activity.code(), 34);
}

#[test]
fn file_and_manufacturer_codes() {
    assert_eq!(FitFileType::Device.code(), 1);
    assert_eq!(FitFileType::Activity.code(), 4);
    assert_eq!(FitFileType::Course.code(), 6);
    assert_eq!(FitFileManufacturerType::Garmin.code(), 1);
    assert_eq!(FitFileManufacturerType::Zephyr.code(), 3);
    assert_eq!(FitFileManufacturerType::Development.code(), 255);
    assert_eq!(FitFileManufacturerType::Decathlon.code(), 310);
}

#[test]
fn protocol_and_architecture_bytes() {
    assert_eq!(FitProtocolVersion::Version1.header_byte(), 0x10);
    assert_eq!(FitProtocolVersion::Version2.header_byte(), 0x20);
    assert_eq!(FitMessageArchitecture::LSB.code(), 0);
    assert_eq!(FitMessageArchitecture::MSB.code(), 1);
}

#[test]
fn field_definition_triples() {
    assert_eq!(FitLapFieldDefinition::StartPositionLat.get(), [3, 4, 133]);
    assert_eq!(FitLapFieldDefinition::TotalCalories.get(), [11, 2, 132]);
    assert_eq!(FitFileIdFieldDefinition::Type.get(), [0, 1, 0]);
    assert_eq!(FitFileIdFieldDefinition::Manufacturer.get(), [1, 2, 132]);
    assert_eq!(FitFileIdFieldDefinition::TimeCreated.get(), [4, 4, 134]);
    assert_eq!(FitRecordFieldDefinition::Timestamp.get(), [253, 4, 134]);
    assert_eq!(FitWorkoutFieldDefinition::WorkoutName.get(), [8, 1, 7]);
    assert_eq!(FitLapFieldDefinition::Sport.field_number(), 25);
    assert_eq!(FitLapFieldDefinition::Sport.base_type(), FitBaseType::Enum);
}

#[test]
fn payload_catalog_codes() {
    assert_eq!(FitActivityType::Manual.code(), 0);
    assert_eq!(FitActivityType::AutoMultiSport.code(), 1);
    assert_eq!(FitEventType::Timer.code(), 0);
    assert_eq!(FitEventType::Workout.code(), 3);
    assert_eq!(FitEventType::Activity.code(), 26);
    assert_eq!(FitEventType::Length.code(), 28);
    assert_eq!(FitEventTypeType::Start.code(), 0);
    assert_eq!(FitEventTypeType::StopDisableAll.code(), 9);
    assert_eq!(FitSportType::Generic.code(), 0);
    assert_eq!(FitSportType::Boxing.code(), 47);
    assert_eq!(FitSportType::All.code(), 254);
    assert_eq!(FitSubSportType::Generic.code(), 0);
    assert_eq!(FitSubSportType::MapMode.code(), 52);
    assert_eq!(FitSubSportType::Obstacle.code(), 59);
    assert_eq!(FitWorkoutStepDuration::Time.code(), 0);
    assert_eq!(FitWorkoutStepDuration::Open.code(), 5);
    assert_eq!(FitWorkoutStepTarget::Speed.code(), 0);
    assert_eq!(FitWorkoutStepTarget::HeartRateLap.code(), 13);
    assert_eq!(FitDisplayMeasureType::Metric.code(), 0);
    assert_eq!(FitDisplayMeasureType::Nautical.code(), 2);
}
