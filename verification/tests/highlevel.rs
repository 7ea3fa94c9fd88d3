use svbony::acquisition::frame_len;
use svbony::camera::SVBonyCamera;
use svbony::control::{ControlAccessor, ControlError, ControlValue, ControlWrite};
use svbony::errors::SVBError;
use svbony::frame::buffer_bytes;
use svbony::session::StreamCommand;
use svbony::structs::{SVBCameraInfo, SVBCameraProperty, SVBControlCaps};
use svbony::types::{SVBBayerPattern, SVBControlType, SVBImageType};

/// A camera on the bench: it holds two controls, clamps what it is given,
/// and serves frames of a constant grey while it is streaming.
struct BenchCamera {
    gain: i32,
    exposure: i32,
    streaming: bool,
}

impl BenchCamera {
    fn connected() -> Vec<BenchCamera> {
        vec![BenchCamera { gain: 0, exposure: 30_000, streaming: false }]
    }

    fn info(&self) -> SVBCameraInfo {
        SVBCameraInfo {
            friendly_name: String::from("SVBONY SV305"),
            serial_number: String::from("305-0001"),
            port_type: String::from("USB2.0"),
            device_id: 1,
            camera_id: 0,
        }
    }

    fn property(&self) -> SVBCameraProperty {
        SVBCameraProperty {
            max_height: 48,
            max_width: 64,
            is_color_cam: true,
            bayer_pattern: SVBBayerPattern::SVBBayerGr,
            supported_bins: vec![1, 2],
            supported_video_format: vec![SVBImageType::SVBImageRaw8, SVBImageType::SVBImageRaw16],
            max_bit_depth: 12,
            is_triggerable: false,
        }
    }

    fn descriptors(&self) -> Vec<Result<SVBControlCaps, SVBError>> {
        vec![
            Ok(SVBControlCaps {
                name: String::from("Gain"),
                description: String::from("Gain"),
                max_value: 720,
                min_value: 0,
                default_value: 10,
                is_auto_supported: true,
                is_writeable: true,
                control_type: SVBControlType::SVBGain,
            }),
            Ok(SVBControlCaps {
                name: String::from("Exposure"),
                description: String::from("Exposure time (us)"),
                max_value: 2_000_000_000,
                min_value: 30,
                default_value: 30_000,
                is_auto_supported: true,
                is_writeable: true,
                control_type: SVBControlType::SVBExposure,
            }),
        ]
    }

    fn read(&self, kind: SVBControlType) -> Result<ControlValue, SVBError> {
        match kind {
            SVBControlType::SVBGain => Ok(ControlValue { value: self.gain, is_auto: false }),
            SVBControlType::SVBExposure => Ok(ControlValue { value: self.exposure, is_auto: false }),
            _ => Err(SVBError::InvalidControlType),
        }
    }

    fn write(&mut self, write: ControlWrite) -> Result<(), SVBError> {
        match write.kind {
            SVBControlType::SVBGain => {
                self.gain = write.value.clamp(0, 720);
                Ok(())
            }
            SVBControlType::SVBExposure => {
                self.exposure = write.value.clamp(30, 2_000_000_000);
                Ok(())
            }
            _ => Err(SVBError::InvalidControlType),
        }
    }

    fn command(&mut self, command: StreamCommand) -> Result<(), SVBError> {
        match command {
            StreamCommand::BeginStream => self.streaming = true,
            StreamCommand::EndStream => self.streaming = false,
        }
        Ok(())
    }

    fn frame(&self, data: &mut [u8], size: i64, wait_ms: i32) -> Result<(), SVBError> {
        if !self.streaming || wait_ms <= 0 {
            return Err(SVBError::Timeout);
        }
        if size < data.len() as i64 {
            return Err(SVBError::BufferTooSmall);
        }
        data.fill(0x80);
        Ok(())
    }
}

fn open(bench: &BenchCamera) -> SVBonyCamera {
    SVBonyCamera::new(
        bench.info(),
        bench.property(),
        &bench.descriptors(),
        bench.read(SVBControlType::SVBExposure),
    )
    .unwrap()
}

fn set(
    cam: &mut SVBonyCamera,
    bench: &mut BenchCamera,
    kind: SVBControlType,
    value: i32,
) -> Result<i32, ControlError> {
    let pending = cam.controls.plan_set(kind, value)?;
    let written = bench.write(pending.command());
    let read_back = pending.confirm(written)?;
    let reply = bench.read(read_back.kind());
    read_back.reconcile(&mut cam.controls, reply)
}

fn describe(cam: &SVBonyCamera) -> String {
    format!(
        "{} ({}, {}): {} x {}, colour {}, bins {:?}, formats {:?}",
        cam.get_info().friendly_name,
        cam.get_info().serial_number,
        cam.get_info().port_type,
        cam.max_width(),
        cam.max_height(),
        cam.is_color_cam(),
        cam.supported_bins(),
        cam.supported_video_formats()
    )
}

fn capture_one_frame(wait_ms: i32) {
    let mut cameras = BenchCamera::connected();
    if cameras.is_empty() {
        return;
    }
    let bench = &mut cameras[0];
    let mut cam = open(bench);
    let begin = cam.stream.request_start().unwrap();
    let reply = bench.command(begin);
    cam.stream.confirm_start(reply).unwrap();
    let len = frame_len(cam.max_width(), cam.max_height()).unwrap();
    let mut data = vec![0u8; len];
    let size = buffer_bytes::<u8>(data.len()).unwrap();
    bench.frame(&mut data, size, wait_ms).unwrap();
    println!("ts = {}", data.len());
    assert_eq!(data.len(), 64 * 48);
    assert!(data.iter().all(|pixel| *pixel == 0x80));
    let end = cam.stream.stop().unwrap();
    bench.command(end).unwrap();
    assert!(!bench.streaming);
}

#[test]
fn highlevel_test_video_capture() {
    capture_one_frame(1000);
}

#[test]
fn mod_test_video_capture() {
    capture_one_frame(1000);
}

fn list_capabilities() {
    let cameras = BenchCamera::connected();
    if cameras.is_empty() {
        return;
    }
    let cam = open(&cameras[0]);
    println!("cam = {}", describe(&cam));
    let mut offered = 0;
    for code in 0..20 {
        if let Some(caps) = cam.get_control_info(SVBControlType::from(code)) {
            println!("{}: {} ({} to {})", caps.name, caps.description, caps.min_value, caps.max_value);
            offered += 1;
        }
    }
    assert_eq!(offered, 2);
}

#[test]
fn highlevel_test_capabilities() {
    list_capabilities();
}

#[test]
fn mod_test_capabilities() {
    list_capabilities();
}

#[test]
fn highlevel_test_camera() {
    let mut cameras = BenchCamera::connected();
    if cameras.is_empty() {
        return;
    }
    let bench = &mut cameras[0];
    let mut cam = open(bench);

    set(&mut cam, bench, SVBControlType::SVBGain, 30).unwrap();

    println!("cam = {}", describe(&cam));
    let exposure = ControlAccessor::interpret_read(bench.read(SVBControlType::SVBExposure)).unwrap();
    let gain = ControlAccessor::interpret_read(bench.read(SVBControlType::SVBGain)).unwrap();
    println!("exposure = {}", exposure);
    println!("gain = {}", gain);
    assert_eq!(exposure, 30_000);
    assert_eq!(gain, 30);
}

#[test]
fn mod_test_camera() {
    let mut cameras = BenchCamera::connected();
    if cameras.is_empty() {
        return;
    }
    let bench = &mut cameras[0];
    let mut cam = open(bench);

    let gain: f64 = 30.0;
    set(&mut cam, bench, SVBControlType::SVBGain, gain as i32).unwrap();

    println!("cam = {}", describe(&cam));
    let exposure = cam.exposure() as f64 / 1_000_000.0;
    let gain = ControlAccessor::interpret_read(bench.read(SVBControlType::SVBGain)).unwrap() as f64;
    println!("exposure = {}", exposure);
    println!("gain = {}", gain);
    assert_eq!(exposure, 0.03);
    assert_eq!(gain, 30.0);
}
