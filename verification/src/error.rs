//! Failures of building and reading account records.

use vstd::prelude::*;

verus! {

/// Why a record could not be built or read. Each failure concerns one record
/// only.
#[derive(Clone, Copy, Debug, PartialEq, Eq, Structural)]
pub enum RecordError {
    /// The account state could not be turned into bytes.
    SerializationFailure,
    /// The compressor could not compress the serialized state.
    CompressionFailure,
    /// The payload is not a valid frame of the record's compression type.
    DecodeFailure,
    /// The decompressed payload does not hold an account state.
    SchemaMismatch,
}

impl RecordError {
    /// Whether the failure points at damaged or foreign data rather than at a
    /// lack of resources.
    pub open spec fn spec_is_data_integrity(self) -> bool {
        self == RecordError::DecodeFailure || self == RecordError::SchemaMismatch
    }

    pub fn is_data_integrity(&self) -> (r: bool)
        ensures
            r == self.spec_is_data_integrity(),
    {
        match self {
            RecordError::DecodeFailure => true,
            RecordError::SchemaMismatch => true,
            RecordError::SerializationFailure => false,
            RecordError::CompressionFailure => false,
        }
    }
}

} // verus!
