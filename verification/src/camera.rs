//! What the driver knows of one open camera.

use crate::acquisition::{
    frame_len_of, timeout_exit, wait_timeout, AcquisitionLoop, Polled, TimedOut,
};
use crate::capability::{first_failure, reported, table_of, CapabilityTable};
use crate::control::{initial_exposure, ControlAccessor, ControlValue};
use crate::errors::SVBError;
use crate::session::{LoopState, SessionState, SessionView};
use crate::structs::{SVBCameraInfo, SVBCameraProperty, SVBControlCaps};
use crate::types::{SVBBayerPattern, SVBControlType, SVBImageType};
use vstd::prelude::*;

verus! {

/// The handle of a camera, for as long as the camera is open.
pub struct DeviceHandle {
    id: Option<i32>,
}

impl View for DeviceHandle {
    type V = Option<i32>;

    closed spec fn view(&self) -> Option<i32> {
        self.id
    }
}

impl DeviceHandle {
    /// The handle of an open camera.
    pub fn new(camera_id: i32) -> (handle: Self)
        ensures
            handle@ == Some(camera_id),
    {
        DeviceHandle { id: Some(camera_id) }
    }

    /// The id to close the camera with; `None` once it has been closed.
    /// Whoever owns the handle closes the camera before letting go of it for
    /// as long as this is `Some`.
    pub fn id(&self) -> (id: Option<i32>)
        ensures
            id == self@,
    {
        self.id
    }

    /// Takes the camera's reply to the command to close it: after a
    /// successful close there is nothing left to close, after a failed one
    /// the handle stays as it is. The reply is handed back unchanged.
    pub fn close_camera(&mut self, reply: Result<(), SVBError>) -> (outcome: Result<(), SVBError>)
        ensures
            outcome == reply,
            final(self)@ == if reply is Ok {
                None
            } else {
                old(self)@
            },
    {
        if reply.is_ok() {
            self.id = None;
        }
        reply
    }
}

/// The camera that is left open, and in nobody's keeping, once the set-up
/// that followed its opening has ended: none after a set-up that succeeded,
/// for the camera it yields keeps the handle; the opened camera after one
/// that failed.
pub open spec fn left_open<T>(camera_id: i32, set_up: Result<T, SVBError>) -> Option<i32> {
    match set_up {
        Ok(_) => None,
        Err(_) => Some(camera_id),
    }
}

/// Says which camera the caller is to close now that the set-up of the
/// camera `camera_id`, which it had opened, has ended with `set_up`. A
/// set-up fails wherever one of the queries it is made of fails; the camera
/// is open by then and must not stay so. The caller closes the camera named
/// here, once, before it hands the error on.
pub fn handle_to_release<T>(camera_id: i32, set_up: &Result<T, SVBError>) -> (to_close: Option<i32>)
    ensures
        to_close == left_open(camera_id, *set_up),
{
    match set_up {
        Ok(_) => None,
        Err(_) => Some(camera_id),
    }
}

/// An open camera: who it is, what its sensor looks like, which controls it
/// offers, and whether it is streaming.
pub struct SVBonyCamera {
    /// Identity of the camera.
    pub info: SVBCameraInfo,
    /// Geometry of the sensor, as read when the camera was opened.
    pub property: SVBCameraProperty,
    /// The controls of the camera.
    pub controls: ControlAccessor,
    /// State of the stream.
    pub stream: SessionState,
    /// The handle to close the camera with.
    pub handle: DeviceHandle,
}

impl SVBonyCamera {
    /// A camera that has just been opened, from what it answered when asked
    /// for its identity, its sensor geometry, each of its control
    /// descriptors in turn, and its exposure time. A failed descriptor query
    /// fails the set-up with the error of the first such query. A failed
    /// exposure query does not: the exposure time is then taken to be zero
    /// until it is set. After a failure the opened camera is in nobody's
    /// keeping; [`handle_to_release`] names it for closing.
    pub fn new(
        info: SVBCameraInfo,
        property: SVBCameraProperty,
        descriptors: &Vec<Result<SVBControlCaps, SVBError>>,
        exposure: Result<ControlValue, SVBError>,
    ) -> (opened: Result<Self, SVBError>)
        ensures
            match first_failure(descriptors@) {
                Some(e) => opened == Err::<Self, SVBError>(e),
                None => opened matches Ok(camera) && {
                    &&& camera.info == info
                    &&& camera.property == property
                    &&& camera.controls.table() == table_of(reported(descriptors@))
                    &&& camera.controls.cached_exposure() == initial_exposure(exposure)
                    &&& camera.stream@ == (SessionView { state: LoopState::Idle, run: 0 })
                    &&& camera.handle@ == Some(info.camera_id)
                },
            },
    {
        match CapabilityTable::build(descriptors) {
            Err(e) => Err(e),
            Ok(table) => {
                let handle = DeviceHandle::new(info.camera_id);
                Ok(
                    SVBonyCamera {
                        info,
                        property,
                        controls: ControlAccessor::new(table, exposure),
                        stream: SessionState::new(),
                        handle,
                    },
                )
            },
        }
    }

    /// Takes the camera's reply to the command to close it; see
    /// [`DeviceHandle::close_camera`].
    pub fn close_camera(&mut self, reply: Result<(), SVBError>) -> (outcome: Result<(), SVBError>)
        ensures
            outcome == reply,
            final(self).handle@ == if reply is Ok {
                None
            } else {
                old(self).handle@
            },
            final(self).info == old(self).info,
            final(self).property == old(self).property,
            final(self).controls == old(self).controls,
            final(self).stream == old(self).stream,
    {
        self.handle.close_camera(reply)
    }

    /// Identity of the camera.
    pub fn get_info(&self) -> (info: &SVBCameraInfo)
        ensures
            *info == self.info,
    {
        &self.info
    }

    /// Geometry of the sensor.
    pub fn get_properties(&self) -> (property: &SVBCameraProperty)
        ensures
            *property == self.property,
    {
        &self.property
    }

    /// Exposure time last read from the camera, in microseconds.
    pub fn exposure(&self) -> (exposure_us: i32)
        ensures
            exposure_us == self.controls.cached_exposure(),
    {
        self.controls.exposure()
    }

    /// Width of the sensor in pixels.
    pub fn max_width(&self) -> (width: i32)
        ensures
            width == self.property.max_width,
    {
        self.property.max_width
    }

    /// Height of the sensor in pixels.
    pub fn max_height(&self) -> (height: i32)
        ensures
            height == self.property.max_height,
    {
        self.property.max_height
    }

    /// Whether the sensor is a colour sensor.
    pub fn is_color_cam(&self) -> (color: bool)
        ensures
            color == self.property.is_color_cam,
    {
        self.property.is_color_cam
    }

    /// Colour filter layout; meaningful for colour sensors only.
    pub fn bayer_pattern(&self) -> (pattern: SVBBayerPattern)
        ensures
            pattern == self.property.bayer_pattern,
    {
        self.property.bayer_pattern
    }

    /// The binning factors the camera supports.
    pub fn supported_bins(&self) -> (bins: Vec<i32>)
        ensures
            bins@ == self.property.supported_bins@,
    {
        let bins = self.property.supported_bins.clone();
        bins
    }

    /// The pixel encodings the camera supports.
    pub fn supported_video_formats(&self) -> (formats: Vec<SVBImageType>)
        ensures
            formats@ == self.property.supported_video_format@,
    {
        let formats = self.property.supported_video_format.clone();
        formats
    }

    /// The descriptor of a control, if the camera offers it. A descriptor
    /// that is found is one of that control.
    pub fn get_control_info(&self, ctrl: SVBControlType) -> (found: Option<SVBControlCaps>)
        ensures
            found is Some <==> self.controls.table().dom().contains(ctrl),
            found matches Some(caps) ==> caps@ == self.controls.table()[ctrl] && caps.control_type
                == ctrl,
    {
        self.controls.lookup(ctrl)
    }

    /// An acquisition loop for the frames of this camera, with a pool of
    /// `pool_size` buffers. `None` if the pool would be empty or the sensor
    /// geometry has no frame length.
    pub fn frame_loop(&self, pool_size: usize) -> (created: Option<AcquisitionLoop>)
        ensures
            created is Some <==> pool_size > 0 && frame_len_of(
                self.property.max_width as int,
                self.property.max_height as int,
            ) is Some,
            created matches Some(lp) ==> {
                &&& lp@.wf()
                &&& lp@.width == self.property.max_width
                &&& lp@.height == self.property.max_height
                &&& lp@.pool_size() == pool_size
                &&& lp@.cursor == 0
            },
    {
        AcquisitionLoop::new(self.property.max_width, self.property.max_height, pool_size)
    }

    /// Polls the loop of run `run` with the state of this camera as it is
    /// now: the loop ends if that run is no longer under way, and otherwise
    /// reads the next frame with the timeout that belongs to the exposure
    /// time last read from the camera.
    pub fn next_read(&self, lp: AcquisitionLoop, run: u64) -> (polled: Polled)
        requires
            lp@.wf(),
        ensures
            polled is Stopped <==> !self.stream@.running(run as nat),
            polled matches Polled::Read(pending) ==> {
                &&& pending@.lp == lp@
                &&& pending@.timeout_ms == wait_timeout(self.controls.cached_exposure() as int)
                &&& pending@.exposure_us == self.controls.cached_exposure()
            },
    {
        lp.poll(self.stream.running(run), self.controls.exposure())
    }

    /// Judges a read of run `run` that timed out by the state of this camera
    /// as it is now: the run ends in good order if it is no longer under
    /// way, and with the timeout as its error if it is.
    pub fn after_timeout(&self, timed_out: TimedOut, run: u64) -> (exit: Result<(), SVBError>)
        ensures
            exit == timeout_exit(self.stream@.running(run as nat)),
    {
        timed_out.resolve(self.stream.running(run))
    }
}

} // verus!
