//! Descriptions of a camera as the driver keeps them.

use crate::types::{SVBBayerPattern, SVBCameraMode, SVBControlType, SVBImageType};
use vstd::prelude::*;

verus! {

/// Identity of a connected camera.
#[derive(Debug)]
pub struct SVBCameraInfo {
    pub friendly_name: String,
    pub serial_number: String,
    pub port_type: String,
    pub device_id: u32,
    pub camera_id: i32,
}

/// What an [`SVBCameraInfo`] holds, as mathematical values.
pub struct CameraInfoView {
    pub friendly_name: Seq<char>,
    pub serial_number: Seq<char>,
    pub port_type: Seq<char>,
    pub device_id: u32,
    pub camera_id: i32,
}

impl View for SVBCameraInfo {
    type V = CameraInfoView;

    open spec fn view(&self) -> CameraInfoView {
        CameraInfoView {
            friendly_name: self.friendly_name@,
            serial_number: self.serial_number@,
            port_type: self.port_type@,
            device_id: self.device_id,
            camera_id: self.camera_id,
        }
    }
}

impl Clone for SVBCameraInfo {
    fn clone(&self) -> (copy: Self)
        ensures
            copy@ == self@,
    {
        SVBCameraInfo {
            friendly_name: self.friendly_name.clone(),
            serial_number: self.serial_number.clone(),
            port_type: self.port_type.clone(),
            device_id: self.device_id,
            camera_id: self.camera_id,
        }
    }
}

/// Geometry and pixel formats of a sensor; fixed while the camera is open.
#[derive(Debug)]
pub struct SVBCameraProperty {
    pub max_height: i32,
    pub max_width: i32,
    pub is_color_cam: bool,
    pub bayer_pattern: SVBBayerPattern,
    pub supported_bins: Vec<i32>,
    pub supported_video_format: Vec<SVBImageType>,
    pub max_bit_depth: i32,
    pub is_triggerable: bool,
}

/// What an [`SVBCameraProperty`] holds, as mathematical values.
pub struct CameraPropertyView {
    pub max_height: i32,
    pub max_width: i32,
    pub is_color_cam: bool,
    pub bayer_pattern: SVBBayerPattern,
    pub supported_bins: Seq<i32>,
    pub supported_video_format: Seq<SVBImageType>,
    pub max_bit_depth: i32,
    pub is_triggerable: bool,
}

impl View for SVBCameraProperty {
    type V = CameraPropertyView;

    open spec fn view(&self) -> CameraPropertyView {
        CameraPropertyView {
            max_height: self.max_height,
            max_width: self.max_width,
            is_color_cam: self.is_color_cam,
            bayer_pattern: self.bayer_pattern,
            supported_bins: self.supported_bins@,
            supported_video_format: self.supported_video_format@,
            max_bit_depth: self.max_bit_depth,
            is_triggerable: self.is_triggerable,
        }
    }
}

impl Clone for SVBCameraProperty {
    fn clone(&self) -> (copy: Self)
        ensures
            copy@ == self@,
    {
        let copy = SVBCameraProperty {
            max_height: self.max_height,
            max_width: self.max_width,
            is_color_cam: self.is_color_cam,
            bayer_pattern: self.bayer_pattern,
            supported_bins: self.supported_bins.clone(),
            supported_video_format: self.supported_video_format.clone(),
            max_bit_depth: self.max_bit_depth,
            is_triggerable: self.is_triggerable,
        };
        copy
    }
}

/// Optional capabilities of a camera.
#[derive(Debug, Clone, Copy, PartialEq, Eq, Structural)]
pub struct SVBCameraPropertyEx {
    pub support_control_temp: bool,
}

/// Range, default and access rights of one control on one camera.
#[derive(Debug)]
pub struct SVBControlCaps {
    pub name: String,
    pub description: String,
    pub max_value: i32,
    pub min_value: i32,
    pub default_value: i32,
    pub is_auto_supported: bool,
    pub is_writeable: bool,
    pub control_type: SVBControlType,
}

/// What an [`SVBControlCaps`] holds, as mathematical values.
pub struct ControlCapsView {
    pub name: Seq<char>,
    pub description: Seq<char>,
    pub max_value: i32,
    pub min_value: i32,
    pub default_value: i32,
    pub is_auto_supported: bool,
    pub is_writeable: bool,
    pub control_type: SVBControlType,
}

impl View for SVBControlCaps {
    type V = ControlCapsView;

    open spec fn view(&self) -> ControlCapsView {
        ControlCapsView {
            name: self.name@,
            description: self.description@,
            max_value: self.max_value,
            min_value: self.min_value,
            default_value: self.default_value,
            is_auto_supported: self.is_auto_supported,
            is_writeable: self.is_writeable,
            control_type: self.control_type,
        }
    }
}

impl Clone for SVBControlCaps {
    fn clone(&self) -> (copy: Self)
        ensures
            copy@ == self@,
    {
        SVBControlCaps {
            name: self.name.clone(),
            description: self.description.clone(),
            max_value: self.max_value,
            min_value: self.min_value,
            default_value: self.default_value,
            is_auto_supported: self.is_auto_supported,
            is_writeable: self.is_writeable,
            control_type: self.control_type,
        }
    }
}

/// Trigger modes a camera supports, in the SDK's fixed-size layout.
#[derive(Debug, Clone, Copy)]
pub struct SVBSupportedMode {
    pub mode: [SVBCameraMode; 16],
}

} // verus!
