use svbony::capability::CapabilityTable;
use svbony::control::{ControlAccessor, ControlError, ControlValue, ControlWrite};
use svbony::errors::SVBError;
use svbony::structs::SVBControlCaps;
use svbony::types::SVBControlType;

fn descriptor(kind: SVBControlType, min: i32, max: i32) -> SVBControlCaps {
    SVBControlCaps {
        name: format!("{:?}", kind),
        description: String::new(),
        max_value: max,
        min_value: min,
        default_value: min,
        is_auto_supported: true,
        is_writeable: true,
        control_type: kind,
    }
}

/// A camera that keeps every control within the limits it advertises.
struct ClampingCamera {
    limits: Vec<(SVBControlType, i32, i32)>,
    stored: Vec<(SVBControlType, i32)>,
    writes: usize,
    reads: usize,
}

impl ClampingCamera {
    fn new(limits: Vec<(SVBControlType, i32, i32)>) -> Self {
        let stored = limits.iter().map(|(kind, min, _)| (*kind, *min)).collect();
        ClampingCamera { limits, stored, writes: 0, reads: 0 }
    }

    fn descriptors(&self) -> Vec<SVBControlCaps> {
        self.limits.iter().map(|(kind, min, max)| descriptor(*kind, *min, *max)).collect()
    }

    fn write(&mut self, write: ControlWrite) -> Result<(), SVBError> {
        self.writes += 1;
        let limit = self.limits.iter().find(|(kind, _, _)| *kind == write.kind);
        match limit {
            None => Err(SVBError::InvalidControlType),
            Some((_, min, max)) => {
                let value = write.value.max(*min).min(*max);
                for slot in self.stored.iter_mut() {
                    if slot.0 == write.kind {
                        slot.1 = value;
                    }
                }
                Ok(())
            }
        }
    }

    fn read(&mut self, kind: SVBControlType) -> Result<ControlValue, SVBError> {
        self.reads += 1;
        match self.stored.iter().find(|(k, _)| *k == kind) {
            None => Err(SVBError::InvalidControlType),
            Some((_, value)) => Ok(ControlValue { value: *value, is_auto: false }),
        }
    }
}

/// Sets a control the way a driver does: plan, write, confirm, read back, reconcile.
fn set(
    accessor: &mut ControlAccessor,
    camera: &mut ClampingCamera,
    kind: SVBControlType,
    value: i32,
) -> Result<i32, ControlError> {
    let pending = accessor.plan_set(kind, value)?;
    let written = camera.write(pending.command());
    let read_back = pending.confirm(written)?;
    let reply = camera.read(read_back.kind());
    read_back.reconcile(accessor, reply)
}

fn get(camera: &mut ClampingCamera, kind: SVBControlType) -> Result<i32, ControlError> {
    ControlAccessor::interpret_read(camera.read(kind))
}

fn three_controls() -> (ControlAccessor, ClampingCamera) {
    let mut camera = ClampingCamera::new(vec![
        (SVBControlType::SVBGain, 0, 100),
        (SVBControlType::SVBExposure, 30, 2_000_000_000),
        (SVBControlType::SVBGamma, 0, 255),
    ]);
    let table = CapabilityTable::from_descriptors(&camera.descriptors());
    let exposure = camera.read(SVBControlType::SVBExposure);
    camera.reads = 0;
    (ControlAccessor::new(table, exposure), camera)
}

#[test]
fn gain_set_beyond_its_maximum_reads_back_clamped() {
    let (mut accessor, mut camera) = three_controls();
    assert_eq!(accessor.limits(SVBControlType::SVBGain), Ok((0, 100)));
    assert_eq!(set(&mut accessor, &mut camera, SVBControlType::SVBGain, 150), Ok(100));
    assert_eq!(get(&mut camera, SVBControlType::SVBGain), Ok(100));
}

#[test]
fn value_read_after_a_set_lies_within_the_limits() {
    let (mut accessor, mut camera) = three_controls();
    let kinds = [SVBControlType::SVBGain, SVBControlType::SVBExposure, SVBControlType::SVBGamma];
    let asked = [i32::MIN, -1, 0, 1, 29, 30, 100, 101, 255, 256, 1_000_000, i32::MAX];
    for kind in kinds.iter() {
        let (min, max) = accessor.limits(*kind).unwrap();
        for value in asked.iter() {
            set(&mut accessor, &mut camera, *kind, *value).unwrap();
            let held = get(&mut camera, *kind).unwrap();
            assert!(min <= held && held <= max);
            if min <= *value && *value <= max {
                assert_eq!(held, *value);
            }
        }
    }
}

#[test]
fn plan_of_a_set_switches_automatic_adjustment_off() {
    let (accessor, _) = three_controls();
    assert_eq!(
        accessor.plan_set(SVBControlType::SVBGamma, 77).unwrap().command(),
        ControlWrite { kind: SVBControlType::SVBGamma, value: 77, auto: false }
    );
}

#[test]
fn limits_of_an_unsupported_control_fail_without_touching_the_camera() {
    let (accessor, camera) = three_controls();
    assert_eq!(accessor.limits(SVBControlType::SVBContrast), Err(ControlError::NotSupported));
    assert_eq!(camera.reads, 0);
    assert_eq!(camera.writes, 0);
}

#[test]
fn set_of_an_unsupported_control_fails_before_anything_is_written() {
    let (mut accessor, mut camera) = three_controls();
    assert_eq!(
        set(&mut accessor, &mut camera, SVBControlType::SVBCoolerPower, 1),
        Err(ControlError::NotSupported)
    );
    assert_eq!(camera.writes, 0);
    assert_eq!(camera.reads, 0);
    assert_eq!(
        accessor.plan_set(SVBControlType::SVBCoolerPower, 1).unwrap_err(),
        ControlError::NotSupported
    );
}

#[test]
fn limits_come_from_the_descriptor() {
    let (accessor, _) = three_controls();
    assert_eq!(accessor.limits(SVBControlType::SVBExposure), Ok((30, 2_000_000_000)));
    assert_eq!(accessor.limits(SVBControlType::SVBGamma), Ok((0, 255)));
    let caps = accessor.lookup(SVBControlType::SVBGamma).unwrap();
    assert_eq!(caps.max_value, 255);
    assert!(accessor.lookup(SVBControlType::SVBFlip).is_none());
}

#[test]
fn refused_write_is_reported_as_device_rejected() {
    let (accessor, _) = three_controls();
    let pending = accessor.plan_set(SVBControlType::SVBGain, 5).unwrap();
    assert_eq!(
        pending.confirm(Err(SVBError::InvalidControlType)).unwrap_err(),
        ControlError::DeviceRejected(SVBError::InvalidControlType)
    );
    let pending = accessor.plan_set(SVBControlType::SVBGain, 5).unwrap();
    assert_eq!(
        pending.confirm(Err(SVBError::CameraClosed)).unwrap_err(),
        ControlError::DeviceRejected(SVBError::CameraClosed)
    );
    let pending = accessor.plan_set(SVBControlType::SVBGain, 5).unwrap();
    assert_eq!(pending.confirm(Ok(())).unwrap().kind(), SVBControlType::SVBGain);
}

#[test]
fn failed_read_is_reported_with_the_camera_error() {
    let (mut accessor, _) = three_controls();
    assert_eq!(
        ControlAccessor::interpret_read(Err(SVBError::CameraRemoved)),
        Err(ControlError::ReadFailed(SVBError::CameraRemoved))
    );
    assert_eq!(
        ControlAccessor::interpret_read(Ok(ControlValue { value: -7, is_auto: true })),
        Ok(-7)
    );
    let before = accessor.exposure();
    let read_back =
        accessor.plan_set(SVBControlType::SVBExposure, 5_000).unwrap().confirm(Ok(())).unwrap();
    assert_eq!(
        read_back.reconcile(&mut accessor, Err(SVBError::Timeout)),
        Err(ControlError::ReadFailed(SVBError::Timeout))
    );
    assert_eq!(accessor.exposure(), before);
}

#[test]
fn exposure_read_back_is_remembered() {
    let (mut accessor, mut camera) = three_controls();
    assert_eq!(accessor.exposure(), 30);
    assert_eq!(set(&mut accessor, &mut camera, SVBControlType::SVBExposure, 100_000), Ok(100_000));
    assert_eq!(accessor.exposure(), 100_000);
    assert_eq!(set(&mut accessor, &mut camera, SVBControlType::SVBExposure, 5), Ok(30));
    assert_eq!(accessor.exposure(), 30);
    assert_eq!(set(&mut accessor, &mut camera, SVBControlType::SVBGain, 42), Ok(42));
    assert_eq!(accessor.exposure(), 30);
}

#[test]
fn exposure_that_cannot_be_read_at_first_counts_as_zero() {
    let table = CapabilityTable::new();
    let accessor = ControlAccessor::new(table, Err(SVBError::InvalidControlType));
    assert_eq!(accessor.exposure(), 0);
    let accessor = ControlAccessor::new(
        CapabilityTable::new(),
        Ok(ControlValue { value: 250_000, is_auto: false }),
    );
    assert_eq!(accessor.exposure(), 250_000);
}

#[test]
fn control_errors_read_as_a_status_of_the_sdk() {
    assert_eq!(ControlError::NotSupported.status(), SVBError::InvalidControlType);
    assert_eq!(ControlError::DeviceRejected(SVBError::OutOfBoundary).status(), SVBError::OutOfBoundary);
    assert_eq!(ControlError::ReadFailed(SVBError::CameraClosed).status(), SVBError::CameraClosed);
}

#[test]
fn control_errors_name_the_camera_error_behind_them() {
    assert_eq!(ControlError::NotSupported.device_error(), None);
    assert_eq!(
        ControlError::DeviceRejected(SVBError::OutOfBoundary).device_error(),
        Some(SVBError::OutOfBoundary)
    );
    assert_eq!(
        ControlError::ReadFailed(SVBError::InvalidId).device_error(),
        Some(SVBError::InvalidId)
    );
}
