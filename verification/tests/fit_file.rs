use fitfile::fit::crc16;
use fitfile::fit::crc_get16;
use fitfile::FitError;
use fitfile::FitFile;
use fitfile::FitFileType;
use fitfile::FitGlobalMessageType;
use fitfile::FitLapFieldDefinition;
use fitfile::FitProtocolVersion;

fn new_activity_128() -> FitFile<128> {
    FitFile::<128>::new(FitProtocolVersion::Version2, 21, 171, FitFileType::Activity, 0).unwrap()
}

#[test]
fn create_min_file() {
    let fit = FitFile::<128>::new(FitProtocolVersion::Version2, 21, 171, FitFileType::Activity, 0);
    assert!(fit.is_ok());

    let mut fit_file = fit.unwrap();
    assert_eq!(fit_file.size(), 33);

    let buf = fit_file.done().unwrap();
    // Header 14 bytes + File ID def 15 bytes + File ID data 8 bytes + 2 bytes CRC
    assert_eq!(buf.len(), 39);
    // Data length 15 + 8 bytes (File ID def + data)
    assert_eq!(buf[4], 23);
}

#[test]
fn create_def_activity_min_file() {
    let mut fit =
        FitFile::<128>::new(FitProtocolVersion::Version2, 21, 171, FitFileType::Activity, 0)
            .unwrap();
    let result = fit.define(
        FitGlobalMessageType::Lap,
        &[FitLapFieldDefinition::StartPositionLat],
    );
    assert!(result.is_ok());
    fit.push(&123u32.to_be_bytes()).unwrap(); // StartPositionLat is 123 LSB

    let buf = fit.done().unwrap();
    // Header 14 bytes
    // File ID def 15 bytes
    // File ID data 8 bytes
    // Lap definition 9 bytes
    // Lap data 5 bytes
    // CRC 2 bytes
    assert_eq!(buf.len(), 53);
}

#[test]
fn min_file_exact_bytes() {
    let mut fit = new_activity_128();
    let buf = fit.done().unwrap();
    let expected: [u8; 39] = [
        14, 32, 179, 82, 23, 0, 0, 0, 46, 70, 73, 84, 0, 0, // header with size field
        64, 0, 0, 0, 0, 3, 0, 1, 0, 1, 2, 132, 4, 4, 134, // File ID definition
        0, 4, 255, 0, 0, 0, 0, 0, // File ID data
        172, 59, // CRC
    ];
    assert_eq!(buf, expected);
}

#[test]
fn def_activity_exact_bytes() {
    let mut fit = new_activity_128();
    fit.define(
        FitGlobalMessageType::Lap,
        &[FitLapFieldDefinition::StartPositionLat],
    )
    .unwrap();
    fit.push(&123u32.to_be_bytes()).unwrap();
    let buf = fit.done().unwrap();
    let expected: [u8; 53] = [
        14, 32, 179, 82, 37, 0, 0, 0, 46, 70, 73, 84, 0, 0, // header with size field
        64, 0, 0, 0, 0, 3, 0, 1, 0, 1, 2, 132, 4, 4, 134, // File ID definition
        0, 4, 255, 0, 0, 0, 0, 0, // File ID data
        64, 0, 0, 19, 0, 1, 3, 4, 133, // Lap definition
        0, 0, 0, 0, 123, // Lap data
        56, 51, // CRC
    ];
    assert_eq!(buf, expected);
}

#[test]
fn zero_field_schema_succeeds() {
    let mut fit = new_activity_128();
    assert_eq!(fit.size(), 33);
    let empty: [FitLapFieldDefinition; 0] = [];
    fit.define(FitGlobalMessageType::Record, &empty).unwrap();
    // one record header plus the 5-byte definition body
    assert_eq!(fit.size(), 39);
    fit.push(&[]).unwrap();
    // one record header, no payload
    assert_eq!(fit.size(), 40);
}

#[test]
fn define_push_growth_formula() {
    let mut fit = new_activity_128();
    let before = fit.size();
    // StartPositionLat is 4 bytes, TotalCalories 2 bytes
    fit.define(
        FitGlobalMessageType::Lap,
        &[
            FitLapFieldDefinition::StartPositionLat,
            FitLapFieldDefinition::TotalCalories,
        ],
    )
    .unwrap();
    // 1 + 2 + 2 + 1 + 3 * 2
    assert_eq!(fit.size(), before + 12);
    fit.push(&[1, 2, 3, 4, 5, 6]).unwrap();
    // 1 + sum of declared sizes
    assert_eq!(fit.size(), before + 12 + 7);
}

#[test]
fn checksum_round_trip() {
    let mut fit = new_activity_128();
    fit.define(
        FitGlobalMessageType::Lap,
        &[FitLapFieldDefinition::StartPositionLat],
    )
    .unwrap();
    fit.push(&123u32.to_be_bytes()).unwrap();
    let buf = fit.done().unwrap();
    let n = buf.len();
    let crc = crc16(&buf[..n - 2]);
    assert_eq!(buf[n - 2], (crc & 0xff) as u8);
    assert_eq!(buf[n - 1], ((crc >> 8) & 0xff) as u8);
}

#[test]
fn done_twice_changes_size_and_checksum() {
    let mut fit = new_activity_128();
    let first = fit.done().unwrap().to_vec();
    // Finalizing is terminal: a second call re-patches the stream and must
    // not reproduce the first result.
    let second = fit.done().unwrap().to_vec();
    assert_eq!(first.len(), 39);
    assert_eq!(second.len(), 45);
    assert_ne!(first[4..8], second[4..8]);
    assert_ne!(first[first.len() - 2..], second[second.len() - 2..]);
}

#[test]
fn capacity_exceeded_fails_without_growth() {
    let mut fit =
        FitFile::<33>::new(FitProtocolVersion::Version2, 21, 171, FitFileType::Activity, 0)
            .unwrap();
    assert_eq!(fit.size(), 33);
    assert_eq!(fit.push(&[1]), Err(0));
    assert_eq!(fit.size(), 33);
    assert_eq!(
        fit.define(
            FitGlobalMessageType::Lap,
            &[FitLapFieldDefinition::StartPositionLat],
        ),
        Err(0)
    );
    assert_eq!(fit.size(), 33);
    // the 6 bytes of size field and checksum do not fit either
    assert!(fit.done().is_err());
    assert_eq!(fit.size(), 33);
}

#[test]
fn push_that_does_not_fit_fails_then_smaller_push_succeeds() {
    let mut fit =
        FitFile::<40>::new(FitProtocolVersion::Version2, 21, 171, FitFileType::Activity, 0)
            .unwrap();
    assert_eq!(fit.push(&[0; 10]), Err(0));
    assert_eq!(fit.size(), 33);
    fit.push(&[0; 6]).unwrap();
    assert_eq!(fit.size(), 40);
}

#[test]
fn capacity_below_header_and_file_id_fails() {
    let fit = FitFile::<10>::new(FitProtocolVersion::Version2, 21, 171, FitFileType::Activity, 0);
    assert_eq!(fit, Err(FitError::Failed(0)));
    let fit = FitFile::<32>::new(FitProtocolVersion::Version1, 21, 171, FitFileType::Workout, 7);
    assert_eq!(fit, Err(FitError::Failed(0)));
}

#[test]
fn more_than_255_fields_fail() {
    let mut fit = FitFile::<4096>::new(
        FitProtocolVersion::Version2,
        21,
        171,
        FitFileType::Activity,
        0,
    )
    .unwrap();
    let fields = vec![FitLapFieldDefinition::StartPositionLat; 256];
    assert_eq!(fit.define(FitGlobalMessageType::Lap, &fields), Err(0));
    assert_eq!(fit.size(), 33);
    let fields = vec![FitLapFieldDefinition::StartPositionLat; 255];
    assert!(fit.define(FitGlobalMessageType::Lap, &fields).is_ok());
    assert_eq!(fit.size(), 33 + 6 + 3 * 255);
}

#[test]
fn crc_functions_match_reference_values() {
    assert_eq!(crc16(&[]), 0);
    assert_eq!(crc_get16(0, 14), 50305);
    assert_eq!(crc16(&[1, 2, 3]), 41232);
    // folding step by step equals the whole
    let data = [14u8, 32, 179, 82];
    let mut c = 0u16;
    for b in data {
        c = crc_get16(c, b);
    }
    assert_eq!(c, crc16(&data));
}
