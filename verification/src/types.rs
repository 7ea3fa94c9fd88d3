//! Enumerations of the vendor SDK and their numeric codes.
//!
//! The SDK speaks in integers. Each enumeration here knows the integer it is
//! sent as (`code`), and those the SDK sends back can be read from one:
//! `checked_from` reads any integer, `from` reads one known to be valid.

use vstd::prelude::*;

verus! {

/// Colour filter layout of a colour sensor.
#[derive(Debug, Clone, Copy, PartialEq, Eq, Structural)]
pub enum SVBBayerPattern {
    SVBBayerRg,
    SVBBayerBg,
    SVBBayerGr,
    SVBBayerGb,
}

impl SVBBayerPattern {
    /// The integer the SDK uses for this value.
    pub open spec fn code_spec(self) -> int {
        match self {
            SVBBayerPattern::SVBBayerRg => 0,
            SVBBayerPattern::SVBBayerBg => 1,
            SVBBayerPattern::SVBBayerGr => 2,
            SVBBayerPattern::SVBBayerGb => 3,
        }
    }

    /// The integer the SDK uses for this value.
    pub fn code(&self) -> (code: i32)
        ensures
            code == self.code_spec(),
    {
        match self {
            SVBBayerPattern::SVBBayerRg => 0,
            SVBBayerPattern::SVBBayerBg => 1,
            SVBBayerPattern::SVBBayerGr => 2,
            SVBBayerPattern::SVBBayerGb => 3,
        }
    }

    /// The value that `code` stands for, if it stands for one.
    pub open spec fn of_code(code: int) -> Option<Self> {
        if code == 0 {
            Some(SVBBayerPattern::SVBBayerRg)
        } else if code == 1 {
            Some(SVBBayerPattern::SVBBayerBg)
        } else if code == 2 {
            Some(SVBBayerPattern::SVBBayerGr)
        } else if code == 3 {
            Some(SVBBayerPattern::SVBBayerGb)
        } else {
            None
        }
    }

    /// Reads an integer sent by the SDK; `None` for one that names no value.
    pub fn checked_from(value: i32) -> (decoded: Option<Self>)
        ensures
            decoded == Self::of_code(value as int),
    {
        match value {
            0 => Some(SVBBayerPattern::SVBBayerRg),
            1 => Some(SVBBayerPattern::SVBBayerBg),
            2 => Some(SVBBayerPattern::SVBBayerGr),
            3 => Some(SVBBayerPattern::SVBBayerGb),
            _ => None,
        }
    }

    /// Reads an integer that is known to name a value.
    pub fn from(value: i32) -> (decoded: Self)
        requires
            Self::of_code(value as int) is Some,
        ensures
            Self::of_code(value as int) == Some(decoded),
    {
        Self::checked_from(value).unwrap()
    }
}

/// Reading the code of a value gives the value back, and two values with
/// the same code are the same value.
pub proof fn lemma_bayer_pattern_code_round_trip(a: SVBBayerPattern, b: SVBBayerPattern)
    ensures
        SVBBayerPattern::of_code(a.code_spec()) == Some(a),
        a.code_spec() == b.code_spec() ==> a == b,
{
}

/// Pixel encoding of the frames a camera delivers.
#[derive(Debug, Clone, Copy, PartialEq, Eq, Structural)]
pub enum SVBImageType {
    SVBImageRaw8,
    SVBImageRaw10,
    SVBImageRaw12,
    SVBImageRaw14,
    SVBImageRaw16,
    SVBImageY8,
    SVBImageY10,
    SVBImageY12,
    SVBImageY14,
    SVBImageY16,
    SVBImageRGB24,
    SVBImageRGB32,
    SVBImageEnd,
}

impl SVBImageType {
    /// The integer the SDK uses for this value.
    pub open spec fn code_spec(self) -> int {
        match self {
            SVBImageType::SVBImageRaw8 => 0,
            SVBImageType::SVBImageRaw10 => 2,
            SVBImageType::SVBImageRaw12 => 3,
            SVBImageType::SVBImageRaw14 => 4,
            SVBImageType::SVBImageRaw16 => 5,
            SVBImageType::SVBImageY8 => 6,
            SVBImageType::SVBImageY10 => 7,
            SVBImageType::SVBImageY12 => 8,
            SVBImageType::SVBImageY14 => 9,
            SVBImageType::SVBImageY16 => 10,
            SVBImageType::SVBImageRGB24 => 11,
            SVBImageType::SVBImageRGB32 => 12,
            SVBImageType::SVBImageEnd => -1,
        }
    }

    /// The integer the SDK uses for this value.
    pub fn code(&self) -> (code: i32)
        ensures
            code == self.code_spec(),
    {
        match self {
            SVBImageType::SVBImageRaw8 => 0,
            SVBImageType::SVBImageRaw10 => 2,
            SVBImageType::SVBImageRaw12 => 3,
            SVBImageType::SVBImageRaw14 => 4,
            SVBImageType::SVBImageRaw16 => 5,
            SVBImageType::SVBImageY8 => 6,
            SVBImageType::SVBImageY10 => 7,
            SVBImageType::SVBImageY12 => 8,
            SVBImageType::SVBImageY14 => 9,
            SVBImageType::SVBImageY16 => 10,
            SVBImageType::SVBImageRGB24 => 11,
            SVBImageType::SVBImageRGB32 => 12,
            SVBImageType::SVBImageEnd => -1,
        }
    }

    /// The value that `code` stands for, if it stands for one.
    pub open spec fn of_code(code: int) -> Option<Self> {
        if code == 0 {
            Some(SVBImageType::SVBImageRaw8)
        } else if code == 2 {
            Some(SVBImageType::SVBImageRaw10)
        } else if code == 3 {
            Some(SVBImageType::SVBImageRaw12)
        } else if code == 4 {
            Some(SVBImageType::SVBImageRaw14)
        } else if code == 5 {
            Some(SVBImageType::SVBImageRaw16)
        } else if code == 6 {
            Some(SVBImageType::SVBImageY8)
        } else if code == 7 {
            Some(SVBImageType::SVBImageY10)
        } else if code == 8 {
            Some(SVBImageType::SVBImageY12)
        } else if code == 9 {
            Some(SVBImageType::SVBImageY14)
        } else if code == 10 {
            Some(SVBImageType::SVBImageY16)
        } else if code == 11 {
            Some(SVBImageType::SVBImageRGB24)
        } else if code == 12 {
            Some(SVBImageType::SVBImageRGB32)
        } else if code == -1 {
            Some(SVBImageType::SVBImageEnd)
        } else {
            None
        }
    }

    /// Reads an integer sent by the SDK; `None` for one that names no value.
    pub fn checked_from(value: i32) -> (decoded: Option<Self>)
        ensures
            decoded == Self::of_code(value as int),
    {
        match value {
            0 => Some(SVBImageType::SVBImageRaw8),
            2 => Some(SVBImageType::SVBImageRaw10),
            3 => Some(SVBImageType::SVBImageRaw12),
            4 => Some(SVBImageType::SVBImageRaw14),
            5 => Some(SVBImageType::SVBImageRaw16),
            6 => Some(SVBImageType::SVBImageY8),
            7 => Some(SVBImageType::SVBImageY10),
            8 => Some(SVBImageType::SVBImageY12),
            9 => Some(SVBImageType::SVBImageY14),
            10 => Some(SVBImageType::SVBImageY16),
            11 => Some(SVBImageType::SVBImageRGB24),
            12 => Some(SVBImageType::SVBImageRGB32),
            -1 => Some(SVBImageType::SVBImageEnd),
            _ => None,
        }
    }

    /// Reads an integer that is known to name a value.
    pub fn from(value: i32) -> (decoded: Self)
        requires
            Self::of_code(value as int) is Some,
        ensures
            Self::of_code(value as int) == Some(decoded),
    {
        Self::checked_from(value).unwrap()
    }
}

/// Reading the code of a value gives the value back, and two values with
/// the same code are the same value.
pub proof fn lemma_image_type_code_round_trip(a: SVBImageType, b: SVBImageType)
    ensures
        SVBImageType::of_code(a.code_spec()) == Some(a),
        a.code_spec() == b.code_spec() ==> a == b,
{
}

/// Direction of a guiding pulse.
#[derive(Debug, Clone, Copy, PartialEq, Eq, Structural)]
pub enum SVBGuideDirection {
    SVBGuideNorth,
    SVBGuideSouth,
    SVBGuideEast,
    SVBGuideWest,
}

impl SVBGuideDirection {
    /// The integer the SDK uses for this value.
    pub open spec fn code_spec(self) -> int {
        match self {
            SVBGuideDirection::SVBGuideNorth => 0,
            SVBGuideDirection::SVBGuideSouth => 1,
            SVBGuideDirection::SVBGuideEast => 2,
            SVBGuideDirection::SVBGuideWest => 3,
        }
    }

    /// The integer the SDK uses for this value.
    pub fn code(&self) -> (code: i32)
        ensures
            code == self.code_spec(),
    {
        match self {
            SVBGuideDirection::SVBGuideNorth => 0,
            SVBGuideDirection::SVBGuideSouth => 1,
            SVBGuideDirection::SVBGuideEast => 2,
            SVBGuideDirection::SVBGuideWest => 3,
        }
    }
}

/// Mirroring applied to the image.
#[derive(Debug, Clone, Copy, PartialEq, Eq, Structural)]
pub enum SVBFlipStatus {
    SVBFlipNone,
    SVBFlipHorizontal,
    SVBFlipVertical,
    SVBFlipBoth,
}

impl SVBFlipStatus {
    /// The integer the SDK uses for this value.
    pub open spec fn code_spec(self) -> int {
        match self {
            SVBFlipStatus::SVBFlipNone => 0,
            SVBFlipStatus::SVBFlipHorizontal => 1,
            SVBFlipStatus::SVBFlipVertical => 2,
            SVBFlipStatus::SVBFlipBoth => 3,
        }
    }

    /// The integer the SDK uses for this value.
    pub fn code(&self) -> (code: i32)
        ensures
            code == self.code_spec(),
    {
        match self {
            SVBFlipStatus::SVBFlipNone => 0,
            SVBFlipStatus::SVBFlipHorizontal => 1,
            SVBFlipStatus::SVBFlipVertical => 2,
            SVBFlipStatus::SVBFlipBoth => 3,
        }
    }
}

/// How an exposure is triggered.
#[derive(Debug, Clone, Copy, PartialEq, Eq, Structural)]
pub enum SVBCameraMode {
    SVBCameraModeNormal,
    SVBCameraModeTrigSoft,
    SVBCameraModeTrigRiseEdge,
    SVBCameraModeTrigFallEdge,
    SVBCameraModeTrigDoubleEdge,
    SVBCameraModeTrigHighLevel,
    SVBCameraModeTrigLowLevel,
}

impl SVBCameraMode {
    /// The integer the SDK uses for this value.
    pub open spec fn code_spec(self) -> int {
        match self {
            SVBCameraMode::SVBCameraModeNormal => 0,
            SVBCameraMode::SVBCameraModeTrigSoft => 1,
            SVBCameraMode::SVBCameraModeTrigRiseEdge => 2,
            SVBCameraMode::SVBCameraModeTrigFallEdge => 3,
            SVBCameraMode::SVBCameraModeTrigDoubleEdge => 4,
            SVBCameraMode::SVBCameraModeTrigHighLevel => 5,
            SVBCameraMode::SVBCameraModeTrigLowLevel => 6,
        }
    }

    /// The integer the SDK uses for this value.
    pub fn code(&self) -> (code: i32)
        ensures
            code == self.code_spec(),
    {
        match self {
            SVBCameraMode::SVBCameraModeNormal => 0,
            SVBCameraMode::SVBCameraModeTrigSoft => 1,
            SVBCameraMode::SVBCameraModeTrigRiseEdge => 2,
            SVBCameraMode::SVBCameraModeTrigFallEdge => 3,
            SVBCameraMode::SVBCameraModeTrigDoubleEdge => 4,
            SVBCameraMode::SVBCameraModeTrigHighLevel => 5,
            SVBCameraMode::SVBCameraModeTrigLowLevel => 6,
        }
    }

    /// The value that `code` stands for, if it stands for one.
    pub open spec fn of_code(code: int) -> Option<Self> {
        if code == 0 {
            Some(SVBCameraMode::SVBCameraModeNormal)
        } else if code == 1 {
            Some(SVBCameraMode::SVBCameraModeTrigSoft)
        } else if code == 2 {
            Some(SVBCameraMode::SVBCameraModeTrigRiseEdge)
        } else if code == 3 {
            Some(SVBCameraMode::SVBCameraModeTrigFallEdge)
        } else if code == 4 {
            Some(SVBCameraMode::SVBCameraModeTrigDoubleEdge)
        } else if code == 5 {
            Some(SVBCameraMode::SVBCameraModeTrigHighLevel)
        } else if code == 6 {
            Some(SVBCameraMode::SVBCameraModeTrigLowLevel)
        } else {
            None
        }
    }

    /// Reads an integer sent by the SDK; `None` for one that names no value.
    pub fn checked_from(value: i32) -> (decoded: Option<Self>)
        ensures
            decoded == Self::of_code(value as int),
    {
        match value {
            0 => Some(SVBCameraMode::SVBCameraModeNormal),
            1 => Some(SVBCameraMode::SVBCameraModeTrigSoft),
            2 => Some(SVBCameraMode::SVBCameraModeTrigRiseEdge),
            3 => Some(SVBCameraMode::SVBCameraModeTrigFallEdge),
            4 => Some(SVBCameraMode::SVBCameraModeTrigDoubleEdge),
            5 => Some(SVBCameraMode::SVBCameraModeTrigHighLevel),
            6 => Some(SVBCameraMode::SVBCameraModeTrigLowLevel),
            _ => None,
        }
    }

    /// Reads an integer that is known to name a value.
    pub fn from(value: i32) -> (decoded: Self)
        requires
            Self::of_code(value as int) is Some,
        ensures
            Self::of_code(value as int) == Some(decoded),
    {
        Self::checked_from(value).unwrap()
    }
}

/// Reading the code of a value gives the value back, and two values with
/// the same code are the same value.
pub proof fn lemma_camera_mode_code_round_trip(a: SVBCameraMode, b: SVBCameraMode)
    ensures
        SVBCameraMode::of_code(a.code_spec()) == Some(a),
        a.code_spec() == b.code_spec() ==> a == b,
{
}

/// Output pin of the trigger signal.
#[derive(Debug, Clone, Copy, PartialEq, Eq, Structural)]
pub enum SVBTrigOuput {
    SVBTrigOutputPinA,
    SVBTrigOutputPinB,
}

impl SVBTrigOuput {
    /// The integer the SDK uses for this value.
    pub open spec fn code_spec(self) -> int {
        match self {
            SVBTrigOuput::SVBTrigOutputPinA => 0,
            SVBTrigOuput::SVBTrigOutputPinB => 1,
        }
    }

    /// The integer the SDK uses for this value.
    pub fn code(&self) -> (code: i32)
        ensures
            code == self.code_spec(),
    {
        match self {
            SVBTrigOuput::SVBTrigOutputPinA => 0,
            SVBTrigOuput::SVBTrigOutputPinB => 1,
        }
    }
}

/// Truth value as the SDK encodes it.
#[derive(Debug, Clone, Copy, PartialEq, Eq, Structural)]
pub enum SVBBool {
    SVBFalse,
    SVBTrue,
}

impl SVBBool {
    /// The integer the SDK uses for this value.
    pub open spec fn code_spec(self) -> int {
        match self {
            SVBBool::SVBFalse => 0,
            SVBBool::SVBTrue => 1,
        }
    }

    /// The integer the SDK uses for this value.
    pub fn code(&self) -> (code: i32)
        ensures
            code == self.code_spec(),
    {
        match self {
            SVBBool::SVBFalse => 0,
            SVBBool::SVBTrue => 1,
        }
    }

    /// The value that `code` stands for, if it stands for one.
    pub open spec fn of_code(code: int) -> Option<Self> {
        if code == 0 {
            Some(SVBBool::SVBFalse)
        } else if code == 1 {
            Some(SVBBool::SVBTrue)
        } else {
            None
        }
    }

    /// Reads an integer sent by the SDK; `None` for one that names no value.
    pub fn checked_from(value: i32) -> (decoded: Option<Self>)
        ensures
            decoded == Self::of_code(value as int),
    {
        match value {
            0 => Some(SVBBool::SVBFalse),
            1 => Some(SVBBool::SVBTrue),
            _ => None,
        }
    }

    /// Reads an integer that is known to name a value.
    pub fn from(value: i32) -> (decoded: Self)
        requires
            Self::of_code(value as int) is Some,
        ensures
            Self::of_code(value as int) == Some(decoded),
    {
        Self::checked_from(value).unwrap()
    }
}

/// Reading the code of a value gives the value back, and two values with
/// the same code are the same value.
pub proof fn lemma_bool_code_round_trip(a: SVBBool, b: SVBBool)
    ensures
        SVBBool::of_code(a.code_spec()) == Some(a),
        a.code_spec() == b.code_spec() ==> a == b,
{
}

/// A tunable parameter of a camera.
#[derive(Debug, Clone, Copy, PartialEq, Eq, Structural)]
pub enum SVBControlType {
    SVBGain,
    SVBExposure,
    SVBGamma,
    SVBGammaContrast,
    SVBWbRed,
    SVBWbGreen,
    SVBWbBlue,
    SVBFlip,
    SVBFrameSpeedMode,
    SVBContrast,
    SVBSharpness,
    SVBSaturation,
    SVBAutoTargetBrightness,
    SVBBlackLevel,
    SVBCoolerEnable,
    SVBTargetTemperature,
    SVBCurrentTemperature,
    SVBCoolerPower,
    SVBBadPixelCorrectionEnable,
    SVBBadPixelCorrectionThreshold,
}

impl SVBControlType {
    /// The integer the SDK uses for this value.
    pub open spec fn code_spec(self) -> int {
        match self {
            SVBControlType::SVBGain => 0,
            SVBControlType::SVBExposure => 1,
            SVBControlType::SVBGamma => 2,
            SVBControlType::SVBGammaContrast => 3,
            SVBControlType::SVBWbRed => 4,
            SVBControlType::SVBWbGreen => 5,
            SVBControlType::SVBWbBlue => 6,
            SVBControlType::SVBFlip => 7,
            SVBControlType::SVBFrameSpeedMode => 8,
            SVBControlType::SVBContrast => 9,
            SVBControlType::SVBSharpness => 10,
            SVBControlType::SVBSaturation => 11,
            SVBControlType::SVBAutoTargetBrightness => 12,
            SVBControlType::SVBBlackLevel => 13,
            SVBControlType::SVBCoolerEnable => 14,
            SVBControlType::SVBTargetTemperature => 15,
            SVBControlType::SVBCurrentTemperature => 16,
            SVBControlType::SVBCoolerPower => 17,
            SVBControlType::SVBBadPixelCorrectionEnable => 18,
            SVBControlType::SVBBadPixelCorrectionThreshold => 19,
        }
    }

    /// The integer the SDK uses for this value.
    pub fn code(&self) -> (code: i32)
        ensures
            code == self.code_spec(),
    {
        match self {
            SVBControlType::SVBGain => 0,
            SVBControlType::SVBExposure => 1,
            SVBControlType::SVBGamma => 2,
            SVBControlType::SVBGammaContrast => 3,
            SVBControlType::SVBWbRed => 4,
            SVBControlType::SVBWbGreen => 5,
            SVBControlType::SVBWbBlue => 6,
            SVBControlType::SVBFlip => 7,
            SVBControlType::SVBFrameSpeedMode => 8,
            SVBControlType::SVBContrast => 9,
            SVBControlType::SVBSharpness => 10,
            SVBControlType::SVBSaturation => 11,
            SVBControlType::SVBAutoTargetBrightness => 12,
            SVBControlType::SVBBlackLevel => 13,
            SVBControlType::SVBCoolerEnable => 14,
            SVBControlType::SVBTargetTemperature => 15,
            SVBControlType::SVBCurrentTemperature => 16,
            SVBControlType::SVBCoolerPower => 17,
            SVBControlType::SVBBadPixelCorrectionEnable => 18,
            SVBControlType::SVBBadPixelCorrectionThreshold => 19,
        }
    }

    /// The value that `code` stands for, if it stands for one.
    pub open spec fn of_code(code: int) -> Option<Self> {
        if code == 0 {
            Some(SVBControlType::SVBGain)
        } else if code == 1 {
            Some(SVBControlType::SVBExposure)
        } else if code == 2 {
            Some(SVBControlType::SVBGamma)
        } else if code == 3 {
            Some(SVBControlType::SVBGammaContrast)
        } else if code == 4 {
            Some(SVBControlType::SVBWbRed)
        } else if code == 5 {
            Some(SVBControlType::SVBWbGreen)
        } else if code == 6 {
            Some(SVBControlType::SVBWbBlue)
        } else if code == 7 {
            Some(SVBControlType::SVBFlip)
        } else if code == 8 {
            Some(SVBControlType::SVBFrameSpeedMode)
        } else if code == 9 {
            Some(SVBControlType::SVBContrast)
        } else if code == 10 {
            Some(SVBControlType::SVBSharpness)
        } else if code == 11 {
            Some(SVBControlType::SVBSaturation)
        } else if code == 12 {
            Some(SVBControlType::SVBAutoTargetBrightness)
        } else if code == 13 {
            Some(SVBControlType::SVBBlackLevel)
        } else if code == 14 {
            Some(SVBControlType::SVBCoolerEnable)
        } else if code == 15 {
            Some(SVBControlType::SVBTargetTemperature)
        } else if code == 16 {
            Some(SVBControlType::SVBCurrentTemperature)
        } else if code == 17 {
            Some(SVBControlType::SVBCoolerPower)
        } else if code == 18 {
            Some(SVBControlType::SVBBadPixelCorrectionEnable)
        } else if code == 19 {
            Some(SVBControlType::SVBBadPixelCorrectionThreshold)
        } else {
            None
        }
    }

    /// Reads an integer sent by the SDK; `None` for one that names no value.
    pub fn checked_from(value: i32) -> (decoded: Option<Self>)
        ensures
            decoded == Self::of_code(value as int),
    {
        match value {
            0 => Some(SVBControlType::SVBGain),
            1 => Some(SVBControlType::SVBExposure),
            2 => Some(SVBControlType::SVBGamma),
            3 => Some(SVBControlType::SVBGammaContrast),
            4 => Some(SVBControlType::SVBWbRed),
            5 => Some(SVBControlType::SVBWbGreen),
            6 => Some(SVBControlType::SVBWbBlue),
            7 => Some(SVBControlType::SVBFlip),
            8 => Some(SVBControlType::SVBFrameSpeedMode),
            9 => Some(SVBControlType::SVBContrast),
            10 => Some(SVBControlType::SVBSharpness),
            11 => Some(SVBControlType::SVBSaturation),
            12 => Some(SVBControlType::SVBAutoTargetBrightness),
            13 => Some(SVBControlType::SVBBlackLevel),
            14 => Some(SVBControlType::SVBCoolerEnable),
            15 => Some(SVBControlType::SVBTargetTemperature),
            16 => Some(SVBControlType::SVBCurrentTemperature),
            17 => Some(SVBControlType::SVBCoolerPower),
            18 => Some(SVBControlType::SVBBadPixelCorrectionEnable),
            19 => Some(SVBControlType::SVBBadPixelCorrectionThreshold),
            _ => None,
        }
    }

    /// Reads an integer that is known to name a value.
    pub fn from(value: i32) -> (decoded: Self)
        requires
            Self::of_code(value as int) is Some,
        ensures
            Self::of_code(value as int) == Some(decoded),
    {
        Self::checked_from(value).unwrap()
    }
}

/// Reading the code of a value gives the value back, and two values with
/// the same code are the same value.
pub proof fn lemma_control_type_code_round_trip(a: SVBControlType, b: SVBControlType)
    ensures
        SVBControlType::of_code(a.code_spec()) == Some(a),
        a.code_spec() == b.code_spec() ==> a == b,
{
}

/// Progress of a single exposure.
#[derive(Debug, Clone, Copy, PartialEq, Eq, Structural)]
pub enum SVBExposureStatus {
    SVBExposureIdle,
    SVBExposureInProgress,
    SVBExposureSuccess,
    SVBExposureFailed,
}

impl SVBExposureStatus {
    /// The integer the SDK uses for this value.
    pub open spec fn code_spec(self) -> int {
        match self {
            SVBExposureStatus::SVBExposureIdle => 0,
            SVBExposureStatus::SVBExposureInProgress => 1,
            SVBExposureStatus::SVBExposureSuccess => 2,
            SVBExposureStatus::SVBExposureFailed => 3,
        }
    }

    /// The integer the SDK uses for this value.
    pub fn code(&self) -> (code: i32)
        ensures
            code == self.code_spec(),
    {
        match self {
            SVBExposureStatus::SVBExposureIdle => 0,
            SVBExposureStatus::SVBExposureInProgress => 1,
            SVBExposureStatus::SVBExposureSuccess => 2,
            SVBExposureStatus::SVBExposureFailed => 3,
        }
    }
}

impl From<SVBBool> for bool {
    fn from(value: SVBBool) -> (truth: bool) {
        match value {
            SVBBool::SVBFalse => false,
            SVBBool::SVBTrue => true,
        }
    }
}

impl vstd::std_specs::convert::FromSpecImpl<SVBBool> for bool {
    open spec fn obeys_from_spec() -> bool {
        true
    }

    open spec fn from_spec(value: SVBBool) -> bool {
        value == SVBBool::SVBTrue
    }
}

/// Number of control kinds the SDK defines; their codes are `0..CONTROL_KINDS`.
pub const CONTROL_KINDS: usize = 20;

} // verus!
