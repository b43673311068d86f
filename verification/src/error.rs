//! Error taxonomy of the conversion service.
//!
//! Three families, kept distinguishable for callers and monitoring:
//! admission errors (`QueueFull`), content errors produced by the codec
//! (`DecodeError`, `EncodeError`, `ImageTooLarge`, `InvalidQuality`), and
//! infrastructure errors (`Internal`), raised when the execution substrate
//! itself fails rather than the conversion logic.

use vstd::prelude::*;

verus! {

/// Every failure the conversion service can report to a submitter.
#[derive(Debug, Clone, PartialEq)]
pub enum ConvertError {
    /// The codec could not decode the HEIC input.
    DecodeError(String),
    /// The codec could not encode the JPEG output.
    EncodeError(String),
    /// The request itself was malformed (missing field, bad form data).
    ValidationError(String),
    /// The uploaded file exceeds the configured byte limit.
    FileTooLarge { size: usize, max: usize },
    /// The decoded image exceeds the configured resolution limit.
    ImageTooLarge { width: u32, height: u32, max: u32 },
    /// The requested quality lies outside the configured bounds.
    InvalidQuality(u8),
    /// Admission control rejected the job: the queue already holds its
    /// full capacity of pending jobs.
    QueueFull,
    /// The caller-side deadline elapsed before a result arrived.
    Timeout,
    /// The execution substrate failed (worker crashed or dropped the
    /// result channel); distinct from a legitimate content rejection.
    Internal(String),
}

impl ConvertError {
    /// The HTTP status code this error maps to at the service boundary.
    pub open spec fn spec_status_code(&self) -> u16 {
        match self {
            ConvertError::DecodeError(_) => 400,
            ConvertError::EncodeError(_) => 500,
            ConvertError::ValidationError(_) => 400,
            ConvertError::FileTooLarge { .. } => 413,
            ConvertError::ImageTooLarge { .. } => 400,
            ConvertError::InvalidQuality(_) => 400,
            ConvertError::QueueFull => 503,
            ConvertError::Timeout => 504,
            ConvertError::Internal(_) => 500,
        }
    }

    /// Status code for the response: client errors for rejected content,
    /// 413 for oversize uploads, 503 for overload, 504 for a timeout and
    /// 500 for infrastructure failures.
    pub fn status_code(&self) -> (r: u16)
        ensures
            r == self.spec_status_code(),
    {
        match self {
            ConvertError::DecodeError(_) => 400,
            ConvertError::EncodeError(_) => 500,
            ConvertError::ValidationError(_) => 400,
            ConvertError::FileTooLarge { .. } => 413,
            ConvertError::ImageTooLarge { .. } => 400,
            ConvertError::InvalidQuality(_) => 400,
            ConvertError::QueueFull => 503,
            ConvertError::Timeout => 504,
            ConvertError::Internal(_) => 500,
        }
    }

    /// Whether this error reports an infrastructure failure rather than
    /// an admission decision or a content rejection.
    pub open spec fn spec_is_infrastructure(&self) -> bool {
        self is Internal
    }

    /// True exactly for `Internal`: operators alert on these separately
    /// from bad-input rates.
    pub fn is_infrastructure(&self) -> (r: bool)
        ensures
            r == self.spec_is_infrastructure(),
    {
        match self {
            ConvertError::Internal(_) => true,
            _ => false,
        }
    }
}

} // verus!
