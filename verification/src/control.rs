//! Validated access to the controls of a camera.
//!
//! Values are in device units throughout: microseconds for the exposure
//! time, the SDK's own integer scale for everything else.
//!
//! Setting a control takes two exchanges with the camera, a write and a
//! read-back, because cameras clamp what they are given without saying so.
//! The accessor decides what to ask and what each reply means; the caller
//! carries the requests to the camera. The steps hand each other on, so that
//! they cannot be taken out of turn:
//!
//! 1. [`ControlAccessor::plan_set`] checks the control against the
//!    capability table and yields the write to perform ([`PendingWrite`]).
//! 2. [`PendingWrite::confirm`] judges the reply to the write and asks for
//!    the value to be read back ([`PendingReadBack`]).
//! 3. [`PendingReadBack::reconcile`] takes the value read back, has the
//!    accessor remember the exposure time if that is what was set, and
//!    yields the value the camera really holds.

use crate::capability::CapabilityTable;
use crate::errors::SVBError;
use crate::structs::{ControlCapsView, SVBControlCaps};
use crate::types::SVBControlType;
use vstd::prelude::*;

verus! {

/// A control value as the camera reports it.
#[derive(Debug, Clone, Copy, PartialEq, Eq, Structural)]
pub struct ControlValue {
    pub value: i32,
    pub is_auto: bool,
}

/// A write the caller is to perform on the camera.
#[derive(Debug, Clone, Copy, PartialEq, Eq, Structural)]
pub struct ControlWrite {
    pub kind: SVBControlType,
    pub value: i32,
    pub auto: bool,
}

/// A set whose write has not been answered yet.
#[derive(Debug)]
pub struct PendingWrite {
    write: ControlWrite,
}

impl View for PendingWrite {
    type V = ControlWrite;

    closed spec fn view(&self) -> ControlWrite {
        self.write
    }
}

/// A set whose write was accepted and whose value has not been read back yet.
#[derive(Debug)]
pub struct PendingReadBack {
    kind: SVBControlType,
}

impl View for PendingReadBack {
    type V = SVBControlType;

    closed spec fn view(&self) -> SVBControlType {
        self.kind
    }
}

/// Why a control could not be read or set.
#[derive(Debug, Clone, Copy, PartialEq, Eq, Structural)]
pub enum ControlError {
    /// The camera does not offer the control.
    NotSupported,
    /// The camera refused the write.
    DeviceRejected(SVBError),
    /// The camera failed to report the value.
    ReadFailed(SVBError),
}

/// The write that sets `kind` to `value`: automatic adjustment is switched off.
pub open spec fn planned_write(
    table: Map<SVBControlType, ControlCapsView>,
    kind: SVBControlType,
    value: i32,
) -> Result<ControlWrite, ControlError> {
    if table.dom().contains(kind) {
        Ok(ControlWrite { kind, value, auto: false })
    } else {
        Err(ControlError::NotSupported)
    }
}

/// What the reply to a read means to the caller.
pub open spec fn read_outcome(reply: Result<ControlValue, SVBError>) -> Result<i32, ControlError> {
    match reply {
        Ok(current) => Ok(current.value),
        Err(e) => Err(ControlError::ReadFailed(e)),
    }
}

/// What the reply to a write means to the caller.
pub open spec fn write_outcome(reply: Result<(), SVBError>) -> Result<(), ControlError> {
    match reply {
        Ok(()) => Ok(()),
        Err(e) => Err(ControlError::DeviceRejected(e)),
    }
}

/// The result of setting a control, given how the camera replied to the
/// write and to the read-back. Either reply is only looked at if the
/// exchange it belongs to takes place.
pub open spec fn set_outcome(
    table: Map<SVBControlType, ControlCapsView>,
    kind: SVBControlType,
    value: i32,
    write_reply: Result<(), SVBError>,
    read_back: Result<ControlValue, SVBError>,
) -> Result<i32, ControlError> {
    match planned_write(table, kind, value) {
        Err(e) => Err(e),
        Ok(_) => match write_outcome(write_reply) {
            Err(e) => Err(e),
            Ok(()) => read_outcome(read_back),
        },
    }
}

/// The exposure time remembered after the read-back of a set: the value read
/// back if the exposure time was set and the read succeeded, the old one
/// otherwise.
pub open spec fn exposure_after(
    cached: i32,
    kind: SVBControlType,
    read_back: Result<ControlValue, SVBError>,
) -> i32 {
    match read_back {
        Ok(current) if kind == SVBControlType::SVBExposure => current.value,
        _ => cached,
    }
}

/// The limits of `kind`, lowest first.
pub open spec fn limits_of(
    table: Map<SVBControlType, ControlCapsView>,
    kind: SVBControlType,
) -> Result<(i32, i32), ControlError> {
    if table.dom().contains(kind) {
        Ok((table[kind].min_value, table[kind].max_value))
    } else {
        Err(ControlError::NotSupported)
    }
}

/// The exposure time to remember when a camera is opened: what it reports,
/// or zero if it fails to.
pub open spec fn initial_exposure(reply: Result<ControlValue, SVBError>) -> i32 {
    match reply {
        Ok(current) => current.value,
        Err(_) => 0,
    }
}

/// The capability table of one camera together with the exposure time last
/// read from it.
pub struct ControlAccessor {
    table: CapabilityTable,
    exposure_us: i32,
}

impl ControlAccessor {
    /// The controls the camera offers.
    pub closed spec fn table(&self) -> Map<SVBControlType, ControlCapsView> {
        self.table@
    }

    /// The exposure time last read from the camera, in microseconds.
    pub closed spec fn cached_exposure(&self) -> i32 {
        self.exposure_us
    }

    /// An accessor for a camera with the given capabilities, whose exposure
    /// time was queried with the given reply.
    pub fn new(table: CapabilityTable, exposure: Result<ControlValue, SVBError>) -> (accessor: Self)
        ensures
            accessor.table() == table@,
            accessor.cached_exposure() == initial_exposure(exposure),
    {
        let exposure_us = match exposure {
            Ok(current) => current.value,
            Err(_) => 0,
        };
        ControlAccessor { table, exposure_us }
    }

    /// The descriptor of `kind`, if the camera offers that control. A
    /// descriptor that is found is one of that kind.
    pub fn lookup(&self, kind: SVBControlType) -> (found: Option<SVBControlCaps>)
        ensures
            found is Some <==> self.table().dom().contains(kind),
            found matches Some(caps) ==> caps@ == self.table()[kind] && caps.control_type == kind,
    {
        self.table.lookup(kind)
    }

    /// The lowest and highest value of `kind`. Fails with `NotSupported`
    /// exactly when the camera does not offer the control; the camera is not
    /// consulted either way.
    pub fn limits(&self, kind: SVBControlType) -> (range: Result<(i32, i32), ControlError>)
        ensures
            range == limits_of(self.table(), kind),
    {
        match self.table.lookup(kind) {
            Some(caps) => Ok((caps.min_value, caps.max_value)),
            None => Err(ControlError::NotSupported),
        }
    }

    /// The exposure time last read from the camera, in microseconds.
    pub fn exposure(&self) -> (exposure_us: i32)
        ensures
            exposure_us == self.cached_exposure(),
    {
        self.exposure_us
    }

    /// First step of a set: the write to perform, or `NotSupported` if the
    /// camera does not offer the control, in which case nothing is to be
    /// sent to the camera.
    pub fn plan_set(&self, kind: SVBControlType, value: i32) -> (plan: Result<
        PendingWrite,
        ControlError,
    >)
        ensures
            match planned_write(self.table(), kind, value) {
                Ok(write) => plan matches Ok(pending) && pending@ == write,
                Err(e) => plan matches Err(refusal) && refusal == e,
            },
    {
        if self.table.supports(kind) {
            Ok(PendingWrite { write: ControlWrite { kind, value, auto: false } })
        } else {
            Err(ControlError::NotSupported)
        }
    }

    /// Remembers the exposure time read back after it was set.
    fn remember(&mut self, kind: SVBControlType, read_back: Result<ControlValue, SVBError>)
        ensures
            final(self).table() == old(self).table(),
            final(self).cached_exposure() == exposure_after(
                old(self).cached_exposure(),
                kind,
                read_back,
            ),
    {
        match read_back {
            Ok(current) => {
                if kind == SVBControlType::SVBExposure {
                    self.exposure_us = current.value;
                }
            },
            Err(_) => {},
        }
    }

    /// What the reply to a read of a control means: its value, or
    /// `ReadFailed` with the camera's error.
    pub fn interpret_read(reply: Result<ControlValue, SVBError>) -> (outcome: Result<
        i32,
        ControlError,
    >)
        ensures
            outcome == read_outcome(reply),
    {
        match reply {
            Ok(current) => Ok(current.value),
            Err(e) => Err(ControlError::ReadFailed(e)),
        }
    }
}

impl PendingWrite {
    /// The write the caller is to perform on the camera.
    pub fn command(&self) -> (write: ControlWrite)
        ensures
            write == self@,
    {
        self.write
    }

    /// Second step of a set: takes the camera's reply to the write. A
    /// refused write ends the set with `DeviceRejected`; after an accepted
    /// one the value of the control is to be read back.
    pub fn confirm(self, reply: Result<(), SVBError>) -> (next: Result<
        PendingReadBack,
        ControlError,
    >)
        ensures
            match write_outcome(reply) {
                Ok(()) => next matches Ok(pending) && pending@ == self@.kind,
                Err(e) => next matches Err(refusal) && refusal == e,
            },
    {
        match reply {
            Ok(()) => Ok(PendingReadBack { kind: self.write.kind }),
            Err(e) => Err(ControlError::DeviceRejected(e)),
        }
    }
}

impl PendingReadBack {
    /// The control the caller is to read.
    pub fn kind(&self) -> (kind: SVBControlType)
        ensures
            kind == self@,
    {
        self.kind
    }

    /// Last step of a set: takes the camera's reply to the read-back. The
    /// value read back is the result of the set, and becomes the exposure
    /// time that `accessor` remembers if the exposure time is what was set.
    pub fn reconcile(
        self,
        accessor: &mut ControlAccessor,
        read_back: Result<ControlValue, SVBError>,
    ) -> (outcome: Result<i32, ControlError>)
        ensures
            outcome == read_outcome(read_back),
            final(accessor).table() == old(accessor).table(),
            final(accessor).cached_exposure() == exposure_after(
                old(accessor).cached_exposure(),
                self@,
                read_back,
            ),
    {
        accessor.remember(self.kind, read_back);
        ControlAccessor::interpret_read(read_back)
    }
}

impl ControlError {
    /// This error as a status of the SDK: the camera's own error where the
    /// camera was asked, and the status the SDK has for a control it does
    /// not know where it was not.
    pub fn status(&self) -> (status: SVBError)
        ensures
            status == match *self {
                ControlError::NotSupported => SVBError::InvalidControlType,
                ControlError::DeviceRejected(e) => e,
                ControlError::ReadFailed(e) => e,
            },
    {
        match self {
            ControlError::NotSupported => SVBError::InvalidControlType,
            ControlError::DeviceRejected(e) => *e,
            ControlError::ReadFailed(e) => *e,
        }
    }

    /// The camera's own error behind this one, if the camera was asked.
    pub fn device_error(&self) -> (cause: Option<SVBError>)
        ensures
            cause == match *self {
                ControlError::NotSupported => None::<SVBError>,
                ControlError::DeviceRejected(e) => Some(e),
                ControlError::ReadFailed(e) => Some(e),
            },
    {
        match self {
            ControlError::NotSupported => None,
            ControlError::DeviceRejected(e) => Some(*e),
            ControlError::ReadFailed(e) => Some(*e),
        }
    }
}

/// A set fails with `NotSupported` exactly when the table lacks the control,
/// whatever the camera would have replied; and then no write is planned.
pub proof fn lemma_set_unsupported(
    table: Map<SVBControlType, ControlCapsView>,
    kind: SVBControlType,
    value: i32,
    write_reply: Result<(), SVBError>,
    read_back: Result<ControlValue, SVBError>,
)
    ensures
        set_outcome(table, kind, value, write_reply, read_back) == Err::<i32, ControlError>(
            ControlError::NotSupported,
        ) <==> !table.dom().contains(kind),
        !table.dom().contains(kind) ==> planned_write(table, kind, value) is Err,
        limits_of(table, kind) == Err::<(i32, i32), ControlError>(ControlError::NotSupported)
            <==> !table.dom().contains(kind),
{
}

/// Reading a control after setting it yields a value within the limits of
/// its descriptor, whatever value was asked for, as long as the camera keeps
/// the control within those limits: the set succeeds with the value the
/// camera holds, and a later read of that value reports it unchanged.
pub proof fn lemma_get_after_set_within_limits(
    table: Map<SVBControlType, ControlCapsView>,
    kind: SVBControlType,
    asked: i32,
    held: ControlValue,
)
    requires
        table.dom().contains(kind),
        table[kind].min_value <= held.value <= table[kind].max_value,
    ensures
        set_outcome(table, kind, asked, Ok(()), Ok(held)) == Ok::<i32, ControlError>(held.value),
        read_outcome(Ok(held)) == Ok::<i32, ControlError>(held.value),
        limits_of(table, kind) matches Ok((min, max)) && min <= held.value <= max,
{
}

/// On a camera that clamps, a set yields the nearest value within the
/// limits: if the camera answers a write of `asked` by holding `asked`
/// where that lies within the limits of the descriptor, and the nearer limit
/// where it does not, the set succeeds with that value, which lies within
/// the limits.
pub proof fn lemma_set_on_clamping_camera(
    table: Map<SVBControlType, ControlCapsView>,
    kind: SVBControlType,
    asked: i32,
    held: ControlValue,
)
    requires
        table.dom().contains(kind),
        table[kind].min_value <= table[kind].max_value,
        held.value == if asked < table[kind].min_value {
            table[kind].min_value
        } else if asked > table[kind].max_value {
            table[kind].max_value
        } else {
            asked
        },
    ensures
        set_outcome(table, kind, asked, Ok(()), Ok(held)) == Ok::<i32, ControlError>(held.value),
        table[kind].min_value <= held.value <= table[kind].max_value,
        table[kind].min_value <= asked <= table[kind].max_value ==> held.value == asked,
{
}

} // verus!
