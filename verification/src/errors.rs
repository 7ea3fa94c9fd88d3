//! Status codes of the vendor SDK.

use vstd::prelude::*;

verus! {

/// Outcome of one SDK call, as the SDK reports it.
#[derive(Debug, Clone, Copy, PartialEq, Eq, Structural)]
pub enum SVBError {
    Success,
    InvalidIndex,
    InvalidId,
    InvalidControlType,
    CameraClosed,
    CameraRemoved,
    InvalidPath,
    InvalidFileFormat,
    InvalidSize,
    InvalidImageType,
    OutOfBoundary,
    Timeout,
    InvalidSequence,
    BufferTooSmall,
    VideoModeActive,
    ExposureInProgress,
    GeneralError,
    InvalidMode,
    InvalidDirection,
    UnknownSensorType,
}

/// The status that a raw SDK return code stands for. Codes the SDK does not
/// document read as a general error.
pub open spec fn status_of_code(code: int) -> SVBError {
    if code == 0 {
        SVBError::Success
    } else if code == 1 {
        SVBError::InvalidIndex
    } else if code == 2 {
        SVBError::InvalidId
    } else if code == 3 {
        SVBError::InvalidControlType
    } else if code == 4 {
        SVBError::CameraClosed
    } else if code == 5 {
        SVBError::CameraRemoved
    } else if code == 6 {
        SVBError::InvalidPath
    } else if code == 7 {
        SVBError::InvalidFileFormat
    } else if code == 8 {
        SVBError::InvalidSize
    } else if code == 9 {
        SVBError::InvalidImageType
    } else if code == 10 {
        SVBError::OutOfBoundary
    } else if code == 11 {
        SVBError::Timeout
    } else if code == 12 {
        SVBError::InvalidSequence
    } else if code == 13 {
        SVBError::BufferTooSmall
    } else if code == 14 {
        SVBError::VideoModeActive
    } else if code == 15 {
        SVBError::ExposureInProgress
    } else if code == 16 {
        SVBError::GeneralError
    } else if code == 17 {
        SVBError::InvalidMode
    } else if code == 18 {
        SVBError::InvalidDirection
    } else if code == 19 {
        SVBError::UnknownSensorType
    } else {
        SVBError::GeneralError
    }
}

impl SVBError {
    /// The SDK's numeric code for this status.
    pub open spec fn code_spec(self) -> int {
        match self {
            SVBError::Success => 0,
            SVBError::InvalidIndex => 1,
            SVBError::InvalidId => 2,
            SVBError::InvalidControlType => 3,
            SVBError::CameraClosed => 4,
            SVBError::CameraRemoved => 5,
            SVBError::InvalidPath => 6,
            SVBError::InvalidFileFormat => 7,
            SVBError::InvalidSize => 8,
            SVBError::InvalidImageType => 9,
            SVBError::OutOfBoundary => 10,
            SVBError::Timeout => 11,
            SVBError::InvalidSequence => 12,
            SVBError::BufferTooSmall => 13,
            SVBError::VideoModeActive => 14,
            SVBError::ExposureInProgress => 15,
            SVBError::GeneralError => 16,
            SVBError::InvalidMode => 17,
            SVBError::InvalidDirection => 18,
            SVBError::UnknownSensorType => 19,
        }
    }

    /// The SDK's numeric code for this status.
    pub fn code(&self) -> (code: i32)
        ensures
            code == self.code_spec(),
    {
        match self {
            SVBError::Success => 0,
            SVBError::InvalidIndex => 1,
            SVBError::InvalidId => 2,
            SVBError::InvalidControlType => 3,
            SVBError::CameraClosed => 4,
            SVBError::CameraRemoved => 5,
            SVBError::InvalidPath => 6,
            SVBError::InvalidFileFormat => 7,
            SVBError::InvalidSize => 8,
            SVBError::InvalidImageType => 9,
            SVBError::OutOfBoundary => 10,
            SVBError::Timeout => 11,
            SVBError::InvalidSequence => 12,
            SVBError::BufferTooSmall => 13,
            SVBError::VideoModeActive => 14,
            SVBError::ExposureInProgress => 15,
            SVBError::GeneralError => 16,
            SVBError::InvalidMode => 17,
            SVBError::InvalidDirection => 18,
            SVBError::UnknownSensorType => 19,
        }
    }

    /// `Ok` for a successful status, the status itself as the error otherwise.
    pub open spec fn into_result_spec(self) -> Result<(), SVBError> {
        if self == SVBError::Success {
            Ok(())
        } else {
            Err(self)
        }
    }

    /// The text the driver shows for this status.
    pub fn message(&self) -> (text: &'static str)
        ensures
            text@ == self.message_spec(),
    {
        match self {
            SVBError::Success => "Success",
            SVBError::InvalidIndex => "Invalid index",
            SVBError::InvalidId => "Invalid ID",
            SVBError::InvalidControlType => "Invalid control type",
            SVBError::CameraClosed => "Camera closed",
            SVBError::CameraRemoved => "Camera removed",
            SVBError::InvalidPath => "Invalid path",
            SVBError::InvalidFileFormat => "Invalid file format",
            SVBError::InvalidSize => "Invalid size",
            SVBError::InvalidImageType => "Invalid image type",
            SVBError::OutOfBoundary => "Out of boundary",
            SVBError::Timeout => "Timeout",
            SVBError::InvalidSequence => "Invalid sequence",
            SVBError::BufferTooSmall => "Buffer too small",
            SVBError::VideoModeActive => "Video mode active",
            SVBError::ExposureInProgress => "Exposure in progress",
            SVBError::GeneralError => "General error",
            SVBError::InvalidMode => "Invalid mode",
            SVBError::InvalidDirection => "Invalid direction",
            SVBError::UnknownSensorType => "Unknown sensor type",
        }
    }

    /// The text the driver shows for this status, as an owned string.
    pub fn to_string(&self) -> (text: String)
        ensures
            text@ == self.message_spec(),
    {
        self.message().to_owned()
    }

    /// The text the driver shows for this status.
    pub open spec fn message_spec(self) -> Seq<char> {
        match self {
            SVBError::Success => "Success"@,
            SVBError::InvalidIndex => "Invalid index"@,
            SVBError::InvalidId => "Invalid ID"@,
            SVBError::InvalidControlType => "Invalid control type"@,
            SVBError::CameraClosed => "Camera closed"@,
            SVBError::CameraRemoved => "Camera removed"@,
            SVBError::InvalidPath => "Invalid path"@,
            SVBError::InvalidFileFormat => "Invalid file format"@,
            SVBError::InvalidSize => "Invalid size"@,
            SVBError::InvalidImageType => "Invalid image type"@,
            SVBError::OutOfBoundary => "Out of boundary"@,
            SVBError::Timeout => "Timeout"@,
            SVBError::InvalidSequence => "Invalid sequence"@,
            SVBError::BufferTooSmall => "Buffer too small"@,
            SVBError::VideoModeActive => "Video mode active"@,
            SVBError::ExposureInProgress => "Exposure in progress"@,
            SVBError::GeneralError => "General error"@,
            SVBError::InvalidMode => "Invalid mode"@,
            SVBError::InvalidDirection => "Invalid direction"@,
            SVBError::UnknownSensorType => "Unknown sensor type"@,
        }
    }
}

impl From<i32> for SVBError {
    fn from(code: i32) -> (status: SVBError) {
        match code {
            0 => SVBError::Success,
            1 => SVBError::InvalidIndex,
            2 => SVBError::InvalidId,
            3 => SVBError::InvalidControlType,
            4 => SVBError::CameraClosed,
            5 => SVBError::CameraRemoved,
            6 => SVBError::InvalidPath,
            7 => SVBError::InvalidFileFormat,
            8 => SVBError::InvalidSize,
            9 => SVBError::InvalidImageType,
            10 => SVBError::OutOfBoundary,
            11 => SVBError::Timeout,
            12 => SVBError::InvalidSequence,
            13 => SVBError::BufferTooSmall,
            14 => SVBError::VideoModeActive,
            15 => SVBError::ExposureInProgress,
            16 => SVBError::GeneralError,
            17 => SVBError::InvalidMode,
            18 => SVBError::InvalidDirection,
            19 => SVBError::UnknownSensorType,
            _ => SVBError::GeneralError,
        }
    }
}

impl vstd::std_specs::convert::FromSpecImpl<i32> for SVBError {
    open spec fn obeys_from_spec() -> bool {
        true
    }

    open spec fn from_spec(code: i32) -> SVBError {
        status_of_code(code as int)
    }
}

impl From<SVBError> for Result<(), SVBError> {
    fn from(error: SVBError) -> (result: Result<(), SVBError>) {
        match error {
            SVBError::Success => Ok(()),
            _ => Err(error),
        }
    }
}

impl vstd::std_specs::convert::FromSpecImpl<SVBError> for Result<(), SVBError> {
    open spec fn obeys_from_spec() -> bool {
        true
    }

    open spec fn from_spec(error: SVBError) -> Result<(), SVBError> {
        error.into_result_spec()
    }
}

/// Every status survives the trip through its numeric code.
pub proof fn lemma_status_code_round_trip(status: SVBError)
    ensures
        0 <= status.code_spec() <= 19,
        status_of_code(status.code_spec()) == status,
{
}

/// A code reads as success exactly when it is zero, and the result made of a
/// status is `Ok` exactly for success.
pub proof fn lemma_success_is_zero(code: int)
    ensures
        status_of_code(code) == SVBError::Success <==> code == 0,
        status_of_code(code).into_result_spec() is Ok <==> code == 0,
{
}

} // verus!
