//! Error taxonomy of the pipeline.

use vstd::prelude::*;

verus! {

/// Why an operation of the pipeline failed.
///
/// Frame-local failures (`OutOfBounds`, `InvalidEnumValue`, `InvalidUtf16`)
/// reject one frame and leave the capture loop running; `IoError` and
/// `SerializationFailed` abort the surrounding transaction or capture.
#[derive(Clone, Copy, Debug, PartialEq, Eq, Structural)]
pub enum TelemetryError {
    /// The shared-memory mapping does not exist (producer not running).
    SharedMemoryUnavailable,
    /// The mapping exists but could not be opened or mapped.
    SharedMemoryOpenFailed,
    /// An offset + size read reaches past the end of a segment.
    OutOfBounds,
    /// A strictly range-checked enum field held a value outside its range.
    InvalidEnumValue,
    /// A wide-string cell is not a valid scalar value.
    InvalidUtf16,
    /// A bounded wait for fresh data ran out.
    Timeout,
    /// A record batch could not be encoded.
    SerializationFailed,
    /// File or database I/O failed.
    IoError,
    /// A malformed input document (notes or config).
    ParseError,
}

impl TelemetryError {
    /// Short stable name of the error kind, for messages and logs.
    pub fn name(&self) -> (r: &'static str)
        ensures
            r@.len() > 0,
    {
        proof {
            reveal_strlit("shared memory unavailable");
            reveal_strlit("shared memory open failed");
            reveal_strlit("out of bounds");
            reveal_strlit("invalid enum value");
            reveal_strlit("invalid utf-16");
            reveal_strlit("timeout");
            reveal_strlit("serialization failed");
            reveal_strlit("io error");
            reveal_strlit("parse error");
        }
        match self {
            TelemetryError::SharedMemoryUnavailable => "shared memory unavailable",
            TelemetryError::SharedMemoryOpenFailed => "shared memory open failed",
            TelemetryError::OutOfBounds => "out of bounds",
            TelemetryError::InvalidEnumValue => "invalid enum value",
            TelemetryError::InvalidUtf16 => "invalid utf-16",
            TelemetryError::Timeout => "timeout",
            TelemetryError::SerializationFailed => "serialization failed",
            TelemetryError::IoError => "io error",
            TelemetryError::ParseError => "parse error",
        }
    }
}

} // verus!
