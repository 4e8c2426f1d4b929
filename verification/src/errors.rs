//! Error taxonomy of the pipeline.
//!
//! Every variant carries structured fields only; human-readable text is
//! produced at the presentation boundary, outside this library.

use vstd::prelude::*;

verus! {

/// Ways an object key can fail validation.
#[derive(Debug, Clone, Copy, PartialEq, Eq, Structural)]
pub enum ValidationError {
    /// The key is the empty string.
    EmptyKey,
    /// The key is longer than the accepted maximum.
    KeyTooLong,
    /// The key holds percent-encoding that does not decode.
    InvalidEncoding,
    /// The decoded key holds `..`, a leading `/`, `//`, or a backslash.
    PathTraversal,
    /// The decoded key holds a character outside the accepted set.
    InvalidCharacter,
}

/// The transform parameter that an out-of-range value was given for.
#[derive(Debug, Clone, Copy, PartialEq, Eq, Structural)]
pub enum ParamField {
    Quality,
    Width,
    Height,
}

/// The pipeline stage at which a codec-level failure arose.
#[derive(Debug, Clone, Copy, PartialEq, Eq, Structural)]
pub enum ProcessingStage {
    Decode,
    Resize,
    Encode,
}

/// Failure of a single transformation request.
#[derive(Debug, Clone, Copy, PartialEq, Eq, Structural)]
pub enum TransformError {
    /// A present parameter is out of range; carries the field and the value.
    InvalidParams { field: ParamField, value: u32 },
    /// Source or planned output exceeds the pixel or axis limits.
    ResolutionTooLarge { width: u32, height: u32 },
    /// A codec-level decode, resize or encode failure.
    ProcessingFailed(ProcessingStage),
}

/// Failure of the object-fetch collaborator.
#[derive(Debug, Clone, PartialEq, Eq)]
pub enum StorageError {
    /// No object is stored under the key.
    NotFound { key: String },
    /// The store refused access.
    Forbidden,
    /// The transport failed before a status was received.
    TransportFailure,
    /// The store answered with a status this client does not expect.
    UnexpectedStatus { status: u16 },
}

/// Unified error of the media service.
#[derive(Debug, Clone)]
pub enum MediaError {
    Validation(ValidationError),
    Storage(StorageError),
    Transform(TransformError),
}

impl From<StorageError> for MediaError {
    fn from(err: StorageError) -> (r: MediaError) {
        MediaError::Storage(err)
    }
}

impl vstd::std_specs::convert::FromSpecImpl<StorageError> for MediaError {
    open spec fn obeys_from_spec() -> bool {
        true
    }

    open spec fn from_spec(err: StorageError) -> MediaError {
        MediaError::Storage(err)
    }
}

impl From<TransformError> for MediaError {
    fn from(err: TransformError) -> (r: MediaError) {
        MediaError::Transform(err)
    }
}

impl vstd::std_specs::convert::FromSpecImpl<TransformError> for MediaError {
    open spec fn obeys_from_spec() -> bool {
        true
    }

    open spec fn from_spec(err: TransformError) -> MediaError {
        MediaError::Transform(err)
    }
}

} // verus!
