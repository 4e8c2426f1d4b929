//! Request-level types of the HTTP boundary: the query a caller sends and
//! the error the service answers with.
//!
//! The boundary layer itself (routing, headers, serialization) lives
//! outside this library; the decisions — how a query becomes transform
//! parameters, how errors map to responses — are verified here.

use vstd::prelude::*;

use crate::constants::DEFAULT_QUALITY;
use crate::errors::ParamField;
use crate::errors::ProcessingStage;
use crate::errors::StorageError;
use crate::errors::TransformError;
use crate::errors::ValidationError;
use crate::params::spec_parse_format;
use crate::params::OutputFormat;
use crate::params::TransformParams;

verus! {

/// Why a request was refused before any pixel work.
#[derive(Debug, Clone, Copy, PartialEq, Eq, Structural)]
pub enum RequestError {
    /// The object key failed validation.
    Key(ValidationError),
    /// A transform parameter is out of range.
    Params { field: ParamField, value: u32 },
    /// Source or planned output exceeds the pixel or axis limits.
    TooLarge { width: u32, height: u32 },
    /// The requested format token names no supported codec.
    UnknownFormat,
}

/// The service-level failure of one request, mapped to a response status
/// at the presentation boundary.
#[derive(Debug, Clone, Copy, PartialEq, Eq, Structural)]
pub enum AppError {
    BadRequest(RequestError),
    NotFound,
    TransformFailed(ProcessingStage),
    StorageUnavailable,
    Internal,
}

impl AppError {
    /// The HTTP status the failure answers with.
    pub open spec fn spec_status_code(self) -> u16 {
        match self {
            AppError::BadRequest(_) => 400,
            AppError::NotFound => 404,
            AppError::TransformFailed(_) => 422,
            AppError::StorageUnavailable => 502,
            AppError::Internal => 500,
        }
    }

    /// The HTTP status the failure answers with: bad requests are the
    /// caller's fault, a missing object is not found, a codec failure is
    /// unprocessable content, and storage trouble is a bad gateway.
    pub fn status_code(&self) -> (r: u16)
        ensures
            r == self.spec_status_code(),
    {
        match self {
            AppError::BadRequest(_) => 400,
            AppError::NotFound => 404,
            AppError::TransformFailed(_) => 422,
            AppError::StorageUnavailable => 502,
            AppError::Internal => 500,
        }
    }
}

impl From<TransformError> for AppError {
    /// Parameter and limit violations are the caller's fault; codec
    /// failures mean the input was unprocessable.
    fn from(err: TransformError) -> (r: AppError) {
        match err {
            TransformError::InvalidParams { field, value } => AppError::BadRequest(
                RequestError::Params { field, value },
            ),
            TransformError::ResolutionTooLarge { width, height } => AppError::BadRequest(
                RequestError::TooLarge { width, height },
            ),
            TransformError::ProcessingFailed(stage) => AppError::TransformFailed(stage),
        }
    }
}

impl vstd::std_specs::convert::FromSpecImpl<TransformError> for AppError {
    open spec fn obeys_from_spec() -> bool {
        true
    }

    open spec fn from_spec(err: TransformError) -> AppError {
        match err {
            TransformError::InvalidParams { field, value } => AppError::BadRequest(
                RequestError::Params { field, value },
            ),
            TransformError::ResolutionTooLarge { width, height } => AppError::BadRequest(
                RequestError::TooLarge { width, height },
            ),
            TransformError::ProcessingFailed(stage) => AppError::TransformFailed(stage),
        }
    }
}

impl From<StorageError> for AppError {
    /// A missing object maps to not-found; refused access, transport
    /// failure and unexpected statuses all mean the upstream store is
    /// unavailable to us.
    fn from(err: StorageError) -> (r: AppError) {
        match err {
            StorageError::NotFound { key: _ } => AppError::NotFound,
            StorageError::Forbidden => AppError::StorageUnavailable,
            StorageError::TransportFailure => AppError::StorageUnavailable,
            StorageError::UnexpectedStatus { status: _ } => AppError::StorageUnavailable,
        }
    }
}

impl vstd::std_specs::convert::FromSpecImpl<StorageError> for AppError {
    open spec fn obeys_from_spec() -> bool {
        true
    }

    open spec fn from_spec(err: StorageError) -> AppError {
        match err {
            StorageError::NotFound { key: _ } => AppError::NotFound,
            StorageError::Forbidden => AppError::StorageUnavailable,
            StorageError::TransportFailure => AppError::StorageUnavailable,
            StorageError::UnexpectedStatus { status: _ } => AppError::StorageUnavailable,
        }
    }
}

impl From<ValidationError> for AppError {
    /// A key that fails validation is the caller's fault.
    fn from(err: ValidationError) -> (r: AppError) {
        AppError::BadRequest(RequestError::Key(err))
    }
}

impl vstd::std_specs::convert::FromSpecImpl<ValidationError> for AppError {
    open spec fn obeys_from_spec() -> bool {
        true
    }

    open spec fn from_spec(err: ValidationError) -> AppError {
        AppError::BadRequest(RequestError::Key(err))
    }
}

/// The raw transformation query of one request, as the HTTP layer hands
/// it over: optional target extents, an optional format token, and an
/// optional quality.
#[derive(Debug, Clone)]
pub struct TransformQuery {
    pub width: Option<u32>,
    pub height: Option<u32>,
    pub format: Option<String>,
    pub quality: Option<u8>,
}

impl TransformQuery {
    /// The parameters a query denotes: an unknown format token is
    /// refused, an absent one falls back — explicitly, here — to JPEG,
    /// and an absent quality takes the default.
    pub open spec fn spec_to_params(self) -> Result<TransformParams, AppError> {
        let format = match self.format {
            Some(f) => spec_parse_format(f@),
            None => Some(OutputFormat::Jpeg),
        };
        match format {
            Some(fmt) => Ok(
                TransformParams {
                    width: self.width,
                    height: self.height,
                    format: fmt,
                    quality: match self.quality {
                        Some(q) => q,
                        None => DEFAULT_QUALITY,
                    },
                },
            ),
            None => Err(AppError::BadRequest(RequestError::UnknownFormat)),
        }
    }

    /// Builds transform parameters from the query. An unknown format
    /// token is a bad request, never silently defaulted; an absent format
    /// is this service's explicit choice of JPEG output.
    pub fn to_params(&self) -> (r: Result<TransformParams, AppError>)
        ensures
            r == self.spec_to_params(),
    {
        let format = match &self.format {
            Some(f) => {
                match OutputFormat::parse_token(f.as_str()) {
                    Some(fmt) => fmt,
                    None => {
                        return Err(AppError::BadRequest(RequestError::UnknownFormat));
                    },
                }
            },
            None => OutputFormat::Jpeg,
        };
        Ok(TransformParams::new(self.width, self.height, format, self.quality))
    }
}

} // verus!
