//! Encoder for the FIT activity-file binary format.
//!
//! A [`fit::FitFile`] owns a fixed-capacity byte stream and emits, in order,
//! the 14-byte file header, the mandatory File-Id message, any number of
//! definition and data records, and finally a CRC-16 trailer.  Every byte of
//! the output is pinned down by the contracts in [`fit`]; the field catalogs
//! in [`profile`] and [`types`] supply the wire triples for the message
//! profiles.

pub mod fit;
pub mod profile;
pub mod sink;
pub mod types;

pub use fit::FitError;
pub use fit::FitFile;
pub use fit::FitMessageArchitecture;
pub use fit::FitProtocolVersion;
pub use profile::FitFieldDefinition;
pub use profile::FitFileIdFieldDefinition;
pub use profile::FitActivityFieldDefinition;
pub use profile::FitSessionFieldDefinition;
pub use profile::FitLapFieldDefinition;
pub use profile::FitEventFieldDefinition;
pub use profile::FitRecordFieldDefinition;
pub use profile::FitWorkoutFieldDefinition;
pub use profile::FitWorkoutStepFieldDefinition;
pub use types::FitBaseType;
pub use types::FitFileType;
pub use types::FitFileManufacturerType;
pub use types::FitGlobalMessageType;
pub use types::FitActivityType;
pub use types::FitEventType;
pub use types::FitEventTypeType;
pub use types::FitSportType;
pub use types::FitSubSportType;
pub use types::FitWorkoutStepDuration;
pub use types::FitWorkoutStepTarget;
pub use types::FitDisplayMeasureType;
