//! The acquisition loop, one decision at a time.
//!
//! A run of the loop is a chain of three steps, each of which hands the
//! loop on in a new form, so that they cannot be taken out of turn:
//!
//! 1. [`AcquisitionLoop::poll`] looks at the running flag and the exposure
//!    time and either ends the run or names the buffer and the timeout of
//!    the next read ([`PendingRead`]).
//! 2. The caller has the camera fill [`PendingRead::buffer_mut`] and reports
//!    the reply to [`PendingRead::complete`], which stamps a frame that was
//!    read and ends the run with the camera's error if the read failed. A
//!    read that timed out is judged by [`TimedOut::resolve`]: that is how a
//!    stop reaches a loop blocked in a read, so it ends the run quietly if
//!    the stream has been stopped by then, and is an error like any other
//!    if it has not.
//! 3. [`FrameReady::deliver`] hands the frame to the consumers and moves on
//!    to the next buffer.
//!
//! A run that has ended leaves no loop behind: nothing is read after it.

use crate::errors::SVBError;
use crate::frame::{CameraCallback, CapturedFrame, ConsumerError, FrameData, FrameDispatcher};
use vstd::prelude::*;

verus! {

/// Number of frame buffers a loop rotates through unless told otherwise.
pub const DEFAULT_POOL_SIZE: usize = 10;

/// Time added to twice the exposure time to bound the wait for a frame, in
/// milliseconds.
pub const GUARD_BAND_MS: i32 = 500;

/// Longest wait for a frame exposed for `exposure_us` microseconds, in
/// milliseconds: twice the exposure time and the guard band, in whole
/// milliseconds. What is cut off is the fraction of the sum, so that the
/// result lies between the exact sum and zero.
pub open spec fn wait_timeout(exposure_us: int) -> int {
    let sum_us = 2 * exposure_us + 1000 * GUARD_BAND_MS;
    if sum_us >= 0 {
        sum_us / 1000
    } else {
        -((-sum_us) / 1000)
    }
}

/// Longest wait for a frame exposed for `exposure_us` microseconds, in
/// milliseconds.
pub fn wait_timeout_ms(exposure_us: i32) -> (timeout_ms: i32)
    ensures
        timeout_ms == wait_timeout(exposure_us as int),
        exposure_us >= 0 ==> timeout_ms == (2 * exposure_us) / 1000 + GUARD_BAND_MS,
{
    let sum_us: i64 = 2 * (exposure_us as i64) + 1000 * (GUARD_BAND_MS as i64);
    if sum_us >= 0 {
        (sum_us / 1000) as i32
    } else {
        (-((-sum_us) / 1000)) as i32
    }
}

/// Number of pixels in a frame of the given geometry, where the geometry
/// makes sense and a buffer of that many 16-bit pixels can be addressed.
pub open spec fn frame_len_of(width: int, height: int) -> Option<nat> {
    if 0 <= width && 0 <= height && 2 * (width * height) <= isize::MAX {
        Some((width * height) as nat)
    } else {
        None
    }
}

/// Number of pixels in a frame of the given geometry; `None` for a
/// negative dimension or a frame too large to address.
pub fn frame_len(width: i32, height: i32) -> (len: Option<usize>)
    ensures
        len == match frame_len_of(width as int, height as int) {
            Some(n) => Some(n as usize),
            None => None,
        },
{
    if width < 0 || height < 0 {
        return None;
    }
    assert(0 <= width * height <= 0x7fff_ffff * 0x7fff_ffff) by (nonlinear_arith)
        requires
            0 <= width <= 0x7fff_ffff,
            0 <= height <= 0x7fff_ffff,
    ;
    let pixels: u64 = (width as u64) * (height as u64);
    if 2 * pixels > isize::MAX as u64 {
        None
    } else {
        Some(pixels as usize)
    }
}

/// Reads the system clock with std's `SystemTime::now` and has chrono turn
/// the reading into a date, through its `From<SystemTime>` for
/// `DateTime<Utc>`, and the date into microseconds since the Unix epoch,
/// through `DateTime::timestamp_micros`. The conversion takes readings
/// before 1970 as well as after; they come out negative. Nothing is claimed
/// of the reading: the clock may stand still or be set back between two
/// calls.
#[verifier::external_body]
fn clock_micros() -> i64 {
    chrono::DateTime::<chrono::Utc>::from(std::time::SystemTime::now()).timestamp_micros()
}

/// An acquisition loop as a mathematical value.
pub struct LoopView {
    /// Pixels per row.
    pub width: nat,
    /// Number of rows.
    pub height: nat,
    /// The buffers of the pool, by slot.
    pub buffers: Seq<Seq<u16>>,
    /// Slot of the buffer the next frame is read into.
    pub cursor: nat,
}

impl LoopView {
    /// Number of buffers in the pool.
    pub open spec fn pool_size(self) -> nat {
        self.buffers.len()
    }

    /// The pool is not empty, every buffer holds exactly one frame, and the
    /// cursor points into the pool.
    pub open spec fn wf(self) -> bool {
        &&& self.buffers.len() > 0
        &&& self.cursor < self.buffers.len()
        &&& forall|slot: int|
            0 <= slot < self.buffers.len() ==> (#[trigger] self.buffers[slot]).len() == self.width
                * self.height
    }

    /// The loop after the frame in the current buffer has been delivered:
    /// the cursor has moved to the next slot, round robin.
    pub open spec fn advanced(self) -> LoopView {
        LoopView { cursor: next_slot(self.cursor, self.pool_size()), ..self }
    }

    /// The loop with other contents in the current buffer.
    pub open spec fn with_current(self, pixels: Seq<u16>) -> LoopView {
        LoopView { buffers: self.buffers.update(self.cursor as int, pixels), ..self }
    }
}

/// The slot after `slot` in a pool of `pool_size` buffers.
pub open spec fn next_slot(slot: nat, pool_size: nat) -> nat {
    if slot + 1 < pool_size {
        slot + 1
    } else {
        0
    }
}

/// The acquisition loop between two frames: a pool of frame buffers and the
/// slot that is next in turn.
pub struct AcquisitionLoop {
    width: usize,
    height: usize,
    buffers: Vec<Vec<u16>>,
    cursor: usize,
}

impl View for AcquisitionLoop {
    type V = LoopView;

    closed spec fn view(&self) -> LoopView {
        LoopView {
            width: self.width as nat,
            height: self.height as nat,
            buffers: Seq::new(self.buffers@.len(), |slot: int| self.buffers@[slot]@),
            cursor: self.cursor as nat,
        }
    }
}

/// What a poll of the loop led to.
pub enum Polled {
    /// A frame is to be read.
    Read(PendingRead),
    /// The stream was stopped; the run has ended in good order.
    Stopped,
}

/// A loop that waits for the camera to fill its current buffer.
pub struct PendingRead {
    lp: AcquisitionLoop,
    timeout_ms: i32,
    exposure_us: i32,
}

/// A pending read as a mathematical value.
pub struct PendingView {
    pub lp: LoopView,
    /// Longest time the read may block, in milliseconds.
    pub timeout_ms: i32,
    /// Exposure time the timeout was derived from, in microseconds.
    pub exposure_us: i32,
}

impl View for PendingRead {
    type V = PendingView;

    closed spec fn view(&self) -> PendingView {
        PendingView { lp: self.lp@, timeout_ms: self.timeout_ms, exposure_us: self.exposure_us }
    }
}

/// What the reply to a read led to.
pub enum Completed {
    /// A frame was read and awaits delivery.
    Frame(FrameReady),
    /// The read timed out; the run has ended, in good order or not.
    TimedOut(TimedOut),
    /// The read failed otherwise; the run has ended with the camera's error.
    Failed(SVBError),
}

/// The end of a run whose last read timed out.
pub struct TimedOut {}

/// A loop whose current buffer holds a frame that has not been delivered yet.
pub struct FrameReady {
    lp: AcquisitionLoop,
    timestamp: i64,
    exposure_us: i32,
}

/// A frame awaiting delivery, as a mathematical value.
pub struct ReadyView {
    pub lp: LoopView,
    /// When the read returned, in microseconds since the Unix epoch.
    pub timestamp: i64,
    /// Exposure time in effect when the read was requested, in microseconds.
    pub exposure_us: i32,
}

impl ReadyView {
    /// Whether `frame` is the frame that is ready: the pixels of the buffer
    /// at the cursor as 16-bit pixels, with the geometry of the loop, the
    /// time stamp and the exposure time of the read, and no bit depth.
    pub open spec fn shows(self, frame: CapturedFrame<'_>) -> bool {
        &&& frame.data matches FrameData::U16Frame(pixels) && pixels@
            == self.lp.buffers[self.lp.cursor as int]
        &&& frame.width == self.lp.width
        &&& frame.height == self.lp.height
        &&& frame.timestamp == self.timestamp
        &&& frame.exposure_us == self.exposure_us
        &&& frame.bit_depth is None
    }
}

impl View for FrameReady {
    type V = ReadyView;

    closed spec fn view(&self) -> ReadyView {
        ReadyView { lp: self.lp@, timestamp: self.timestamp, exposure_us: self.exposure_us }
    }
}

/// What the camera's reply to a read amounts to.
pub enum Arrival {
    /// A frame was read.
    Frame,
    /// The read timed out.
    TimedOut,
    /// The read failed otherwise.
    Failed(SVBError),
}

/// What the camera's reply to a read amounts to.
pub open spec fn arrival(reply: Result<(), SVBError>) -> Arrival {
    match reply {
        Ok(()) => Arrival::Frame,
        Err(e) => if e == SVBError::Timeout {
            Arrival::TimedOut
        } else {
            Arrival::Failed(e)
        },
    }
}

/// How a run ends whose last read timed out, given whether the run is still
/// under way: a timeout after the stream was stopped is how a stop reaches
/// a loop that is blocked in a read, a timeout while the run is under way
/// is an error.
pub open spec fn timeout_exit(running_now: bool) -> Result<(), SVBError> {
    if running_now {
        Err(SVBError::Timeout)
    } else {
        Ok(())
    }
}

/// How a read ends, given the camera's reply and whether the run was still
/// under way when the reply came.
pub enum ReadEnd {
    /// A frame was read; the run goes on.
    Frame,
    /// The run ends, in good order or with an error.
    Exit(Result<(), SVBError>),
}

/// How a read ends: with a frame, or with the end of the run. Every error
/// but a timeout is fatal, whether the stream was stopped or not.
pub open spec fn read_end(reply: Result<(), SVBError>, running_now: bool) -> ReadEnd {
    match arrival(reply) {
        Arrival::Frame => ReadEnd::Frame,
        Arrival::TimedOut => ReadEnd::Exit(timeout_exit(running_now)),
        Arrival::Failed(e) => ReadEnd::Exit(Err(e)),
    }
}

impl Completed {
    /// What the reply that led here amounted to.
    pub open spec fn arrival(self) -> Arrival {
        match self {
            Completed::Frame(_) => Arrival::Frame,
            Completed::TimedOut(_) => Arrival::TimedOut,
            Completed::Failed(e) => Arrival::Failed(e),
        }
    }
}

impl AcquisitionLoop {
    /// A loop for frames of `max_width` by `max_height` pixels with a pool of
    /// `pool_size` zeroed buffers, starting at the first. `None` if the pool
    /// would be empty or the geometry has no frame length.
    pub fn new(max_width: i32, max_height: i32, pool_size: usize) -> (created: Option<Self>)
        ensures
            created is Some <==> pool_size > 0 && frame_len_of(max_width as int, max_height as int)
                is Some,
            created matches Some(lp) ==> {
                &&& lp@.wf()
                &&& lp@.width == max_width
                &&& lp@.height == max_height
                &&& lp@.pool_size() == pool_size
                &&& lp@.cursor == 0
                &&& forall|slot: int, i: int|
                    0 <= slot < pool_size && 0 <= i < max_width * max_height
                        ==> #[trigger] lp@.buffers[slot][i] == 0
            },
    {
        if pool_size == 0 {
            return None;
        }
        let len = match frame_len(max_width, max_height) {
            Some(len) => len,
            None => {
                return None;
            },
        };
        let mut buffers: Vec<Vec<u16>> = Vec::new();
        let mut slot: usize = 0;
        while slot < pool_size
            invariant
                slot <= pool_size,
                buffers@.len() == slot,
                forall|s: int| 0 <= s < slot ==> (#[trigger] buffers@[s])@.len() == len,
                forall|s: int, i: int|
                    0 <= s < slot && 0 <= i < len ==> #[trigger] buffers@[s]@[i] == 0,
            decreases pool_size - slot,
        {
            let buffer: Vec<u16> = vec![0u16; len];
            buffers.push(buffer);
            slot += 1;
        }
        let lp = AcquisitionLoop {
            width: max_width as usize,
            height: max_height as usize,
            buffers,
            cursor: 0,
        };
        Some(lp)
    }

    /// Pixels per row.
    pub fn width(&self) -> (width: usize)
        ensures
            width == self@.width,
    {
        self.width
    }

    /// Number of rows.
    pub fn height(&self) -> (height: usize)
        ensures
            height == self@.height,
    {
        self.height
    }

    /// Number of buffers in the pool.
    pub fn pool_size(&self) -> (size: usize)
        ensures
            size == self@.pool_size(),
    {
        self.buffers.len()
    }

    /// First step of an iteration. `running` is whether the run is under way
    /// right now, `exposure_us` the exposure time last read from the camera.
    /// If the run is over, so is the loop; otherwise the next read goes to
    /// the buffer at the cursor and may block for the timeout that belongs
    /// to the exposure time.
    pub fn poll(self, running: bool, exposure_us: i32) -> (polled: Polled)
        requires
            self@.wf(),
        ensures
            polled is Stopped <==> !running,
            polled matches Polled::Read(pending) ==> {
                &&& pending@.lp == self@
                &&& pending@.timeout_ms == wait_timeout(exposure_us as int)
                &&& pending@.exposure_us == exposure_us
            },
    {
        if running {
            let timeout_ms = wait_timeout_ms(exposure_us);
            Polled::Read(PendingRead { lp: self, timeout_ms, exposure_us })
        } else {
            Polled::Stopped
        }
    }
}

impl PendingRead {
    /// Slot of the buffer the frame is read into.
    pub fn slot(&self) -> (slot: usize)
        ensures
            slot == self@.lp.cursor,
    {
        self.lp.cursor
    }

    /// Longest time the read may block, in milliseconds.
    pub fn timeout_ms(&self) -> (timeout_ms: i32)
        ensures
            timeout_ms == self@.timeout_ms,
    {
        self.timeout_ms
    }

    /// Exposure time the timeout was derived from, in microseconds.
    pub fn exposure_us(&self) -> (exposure_us: i32)
        ensures
            exposure_us == self@.exposure_us,
    {
        self.exposure_us
    }

    /// The buffer the camera is to fill: that at the cursor, one frame long.
    /// Whatever is written to it is what the pool holds in that slot
    /// afterwards; nothing else changes.
    pub fn buffer_mut(&mut self) -> (buffer: &mut [u16])
        requires
            old(self)@.lp.wf(),
        ensures
            buffer@ == old(self)@.lp.buffers[old(self)@.lp.cursor as int],
            buffer@.len() == old(self)@.lp.width * old(self)@.lp.height,
            final(self)@ == (PendingView {
                lp: old(self)@.lp.with_current(final(buffer)@),
                ..old(self)@
            }),
    {
        let slot = self.lp.cursor;
        let ghost before = self.lp.buffers@;
        let buffer = self.lp.buffers[slot].as_mut_slice();
        proof {
            assert(Seq::new(
                after_borrow(self.lp.buffers)@.len(),
                |s: int| after_borrow(self.lp.buffers)@[s]@,
            ) =~= Seq::new(before.len(), |s: int| before[s]@).update(slot as int, final(buffer)@));
        }
        buffer
    }

    /// Second step of an iteration: takes the camera's reply to the read. A
    /// frame that was read is stamped with the time of this call.
    pub fn complete(self, reply: Result<(), SVBError>) -> (completed: Completed)
        requires
            self@.lp.wf(),
        ensures
            completed.arrival() == arrival(reply),
            completed matches Completed::Frame(ready) ==> {
                &&& ready@.lp == self@.lp
                &&& ready@.exposure_us == self@.exposure_us
            },
    {
        match reply {
            Ok(()) => {
                let now = clock_micros();
                self.complete_at(reply, now)
            },
            Err(_) => self.complete_at(reply, 0),
        }
    }

    /// As `complete`, with the reading of the clock given: `now` is looked
    /// at only if a frame was read.
    pub fn complete_at(self, reply: Result<(), SVBError>, now: i64) -> (completed: Completed)
        requires
            self@.lp.wf(),
        ensures
            completed.arrival() == arrival(reply),
            completed matches Completed::Frame(ready) ==> ready@ == (ReadyView {
                lp: self@.lp,
                timestamp: now,
                exposure_us: self@.exposure_us,
            }),
    {
        match reply {
            Ok(()) => Completed::Frame(
                FrameReady { lp: self.lp, timestamp: now, exposure_us: self.exposure_us },
            ),
            Err(e) => {
                if e == SVBError::Timeout {
                    Completed::TimedOut(TimedOut {})
                } else {
                    Completed::Failed(e)
                }
            },
        }
    }
}

impl TimedOut {
    /// How the run ends: in good order if the stream has been stopped by
    /// now, with the timeout as its error if the run is still under way.
    pub fn resolve(self, running_now: bool) -> (exit: Result<(), SVBError>)
        ensures
            exit == timeout_exit(running_now),
    {
        if running_now {
            Err(SVBError::Timeout)
        } else {
            Ok(())
        }
    }
}

impl FrameReady {
    /// The frame as the consumers get it: the buffer at the cursor, with
    /// the geometry of the loop, the time stamp and the exposure time.
    pub fn frame(&self) -> (frame: CapturedFrame<'_>)
        requires
            self@.lp.wf(),
        ensures
            self@.shows(frame),
            frame.data.len_spec() == frame.width * frame.height,
    {
        CapturedFrame {
            data: FrameData::U16Frame(self.lp.buffers[self.lp.cursor].as_slice()),
            width: self.lp.width,
            height: self.lp.height,
            timestamp: self.timestamp,
            exposure_us: self.exposure_us,
            bit_depth: None,
        }
    }

    /// Last step of an iteration: hands the frame to the consumers, in the
    /// order they were registered, and moves the cursor to the next buffer.
    /// Returns the loop, ready for the next poll, and what each consumer
    /// answered. Every consumer is called once, with the frame that is
    /// ready. A consumer's failure does not end the run.
    pub fn deliver<C: CameraCallback>(self, dispatcher: &mut FrameDispatcher<C>) -> (delivered: (
        AcquisitionLoop,
        Vec<Result<(), ConsumerError>>,
    ))
        requires
            self@.lp.wf(),
        ensures
            delivered.0@ == self@.lp.advanced(),
            delivered.0@.wf(),
            delivered.1@.len() == old(dispatcher).consumers().len(),
            final(dispatcher).consumers().len() == old(dispatcher).consumers().len(),
            forall|i: int|
                0 <= i < delivered.1@.len() ==> {
                    let answer = #[trigger] delivered.1@[i];
                    exists|call: &mut C, frame: CapturedFrame<'_>|
                        self@.shows(frame) && mut_ref_current(call)
                            == old(dispatcher).consumers()[i] && mut_ref_future(call)
                            == final(dispatcher).consumers()[i]
                            && #[trigger] call_ensures(C::on_video_frame, (call, &frame), answer)
                },
    {
        let frame = self.frame();
        let outcomes = dispatcher.dispatch(&frame);
        (self.release(), outcomes)
    }

    /// The loop with the cursor on the next buffer.
    fn release(self) -> (lp: AcquisitionLoop)
        requires
            self@.lp.wf(),
        ensures
            lp@ == self@.lp.advanced(),
            lp@.wf(),
    {
        let mut lp = self.lp;
        let pool_size = lp.buffers.len();
        if lp.cursor + 1 < pool_size {
            lp.cursor = lp.cursor + 1;
        } else {
            lp.cursor = 0;
        }
        lp
    }
}

/// What one turn of the loop meets with: the running flag and the exposure
/// time as the poll finds them, the camera's reply to the read, and the
/// running flag and the clock as they are when the reply comes in. Of a turn
/// that ends the run early, the later parts are not looked at.
pub struct Turn {
    pub running: bool,
    pub exposure_us: i32,
    pub reply: Result<(), SVBError>,
    pub running_after: bool,
    pub clock: i64,
}

/// A read the loop asks for.
pub struct ReadRequest {
    pub slot: nat,
    pub timeout_ms: int,
}

/// A frame the loop hands to the consumers.
pub struct FrameStamp {
    pub slot: nat,
    pub timestamp: i64,
    pub exposure_us: i32,
}

/// What a run of the loop did.
pub struct RunTrace {
    /// The reads asked for, in order.
    pub reads: Seq<ReadRequest>,
    /// The frames delivered, in order.
    pub frames: Seq<FrameStamp>,
    /// How the run ended, if it did.
    pub exit: Option<Result<(), SVBError>>,
}

/// What the loop does over a series of turns, starting with the cursor at
/// `cursor` in a pool of `pool_size` buffers: each turn is a poll, and for a
/// run that is under way a read, and for a read that brought a frame a
/// delivery. The first turn that ends the run is the last one looked at.
pub open spec fn run_trace(pool_size: nat, cursor: nat, turns: Seq<Turn>) -> RunTrace
    decreases turns.len(),
{
    if turns.len() == 0 {
        RunTrace { reads: Seq::empty(), frames: Seq::empty(), exit: None }
    } else if !turns.first().running {
        RunTrace { reads: Seq::empty(), frames: Seq::empty(), exit: Some(Ok(())) }
    } else {
        let turn = turns.first();
        let read = ReadRequest { slot: cursor, timeout_ms: wait_timeout(turn.exposure_us as int) };
        match read_end(turn.reply, turn.running_after) {
            ReadEnd::Exit(exit) => RunTrace {
                reads: seq![read],
                frames: Seq::empty(),
                exit: Some(exit),
            },
            ReadEnd::Frame => {
                let rest = run_trace(pool_size, next_slot(cursor, pool_size), turns.drop_first());
                let frame = FrameStamp {
                    slot: cursor,
                    timestamp: turn.clock,
                    exposure_us: turn.exposure_us,
                };
                RunTrace {
                    reads: seq![read] + rest.reads,
                    frames: seq![frame] + rest.frames,
                    exit: rest.exit,
                }
            },
        }
    }
}

/// The slot reached from `cursor` after `n` deliveries.
pub open spec fn slot_after(pool_size: nat, cursor: nat, n: nat) -> nat
    decreases n,
{
    if n == 0 {
        cursor
    } else {
        slot_after(pool_size, next_slot(cursor, pool_size), (n - 1) as nat)
    }
}

/// The buffers are used round robin.
pub proof fn lemma_slots_rotate(pool_size: nat, cursor: nat, n: nat)
    requires
        cursor < pool_size,
    ensures
        slot_after(pool_size, cursor, n) == (cursor + n) % pool_size,
    decreases n,
{
    if n == 0 {
        vstd::arithmetic::div_mod::lemma_small_mod(cursor, pool_size);
    } else {
        lemma_slots_rotate(pool_size, next_slot(cursor, pool_size), (n - 1) as nat);
        if cursor + 1 == pool_size {
            vstd::arithmetic::div_mod::lemma_mod_add_multiples_vanish(n - 1, pool_size as int);
        }
    }
}

/// A run that has not ended after `turns` has read and delivered one frame
/// per turn; and what the loop does over more turns is what it did over
/// these, followed by what it does over the others from where it got to.
pub proof fn lemma_run_goes_on(pool_size: nat, cursor: nat, turns: Seq<Turn>, more: Seq<Turn>)
    requires
        run_trace(pool_size, cursor, turns).exit is None,
    ensures
        run_trace(pool_size, cursor, turns).reads.len() == turns.len(),
        run_trace(pool_size, cursor, turns).frames.len() == turns.len(),
        run_trace(pool_size, cursor, turns + more).reads == run_trace(
            pool_size,
            cursor,
            turns,
        ).reads + run_trace(pool_size, slot_after(pool_size, cursor, turns.len()), more).reads,
        run_trace(pool_size, cursor, turns + more).frames == run_trace(
            pool_size,
            cursor,
            turns,
        ).frames + run_trace(pool_size, slot_after(pool_size, cursor, turns.len()), more).frames,
        run_trace(pool_size, cursor, turns + more).exit == run_trace(
            pool_size,
            slot_after(pool_size, cursor, turns.len()),
            more,
        ).exit,
    decreases turns.len(),
{
    if turns.len() > 0 {
        let rest = turns.drop_first();
        assert((turns + more).drop_first() =~= rest + more);
        lemma_run_goes_on(pool_size, next_slot(cursor, pool_size), rest, more);
    }
}

/// The frames of a run are those of its first turns, one each, in order:
/// the `i`-th frame delivered was read into the `i`-th slot of the rotation
/// by the `i`-th read, and carries the clock reading and the exposure time
/// of the `i`-th turn.
pub proof fn lemma_frames_follow_turns(pool_size: nat, cursor: nat, turns: Seq<Turn>, i: int)
    requires
        cursor < pool_size,
        0 <= i < run_trace(pool_size, cursor, turns).frames.len(),
    ensures
        i < turns.len(),
        i < run_trace(pool_size, cursor, turns).reads.len(),
        run_trace(pool_size, cursor, turns).reads[i].slot == (cursor + i) % (pool_size as int),
        run_trace(pool_size, cursor, turns).frames[i] == (FrameStamp {
            slot: ((cursor + i) % (pool_size as int)) as nat,
            timestamp: turns[i].clock,
            exposure_us: turns[i].exposure_us,
        }),
    decreases i,
{
    if i == 0 {
        vstd::arithmetic::div_mod::lemma_small_mod(cursor, pool_size);
    } else {
        let next = next_slot(cursor, pool_size);
        lemma_frames_follow_turns(pool_size, next, turns.drop_first(), i - 1);
        lemma_slots_rotate(pool_size, cursor, i as nat);
        lemma_slots_rotate(pool_size, next, (i - 1) as nat);
    }
}

/// Frames are delivered in the order they were acquired: if the clock moves
/// forward from each turn to the next, the time stamps of the frames of a
/// run increase strictly.
pub proof fn lemma_timestamps_increase(
    pool_size: nat,
    cursor: nat,
    turns: Seq<Turn>,
    i: int,
    j: int,
)
    requires
        cursor < pool_size,
        forall|a: int, b: int|
            0 <= a < b < turns.len() ==> (#[trigger] turns[a]).clock < (#[trigger] turns[b]).clock,
        0 <= i < j < run_trace(pool_size, cursor, turns).frames.len(),
    ensures
        run_trace(pool_size, cursor, turns).frames[i].timestamp < run_trace(
            pool_size,
            cursor,
            turns,
        ).frames[j].timestamp,
{
    lemma_frames_follow_turns(pool_size, cursor, turns, i);
    lemma_frames_follow_turns(pool_size, cursor, turns, j);
}

/// No buffer is used again before all the others have had their turn: two
/// frames of a run that are less than the size of the pool apart lie in
/// different buffers.
pub proof fn lemma_nearby_frames_in_different_slots(
    pool_size: nat,
    cursor: nat,
    turns: Seq<Turn>,
    i: int,
    j: int,
)
    requires
        cursor < pool_size,
        0 <= i < j < run_trace(pool_size, cursor, turns).frames.len(),
        j - i < pool_size,
    ensures
        run_trace(pool_size, cursor, turns).frames[i].slot != run_trace(
            pool_size,
            cursor,
            turns,
        ).frames[j].slot,
{
    lemma_frames_follow_turns(pool_size, cursor, turns, i);
    lemma_frames_follow_turns(pool_size, cursor, turns, j);
    let p = pool_size as int;
    if (cursor + i) % p == (cursor + j) % p {
        vstd::arithmetic::div_mod::lemma_mod_equivalence(cursor + j, cursor + i, p);
        vstd::arithmetic::div_mod::lemma_small_mod((j - i) as nat, pool_size);
    }
}

/// A stop ends the run within one read. Say the run is still going when
/// turn `k` begins, the stream has been stopped by the time the reply of
/// that turn comes in, and a frame that this last read may still bring is
/// followed by one more poll. Then, if that read brings a frame or times
/// out, the run ends in good order; no read is begun after turn `k`; and the
/// read of turn `k`, if there is one, blocks no longer than the timeout that
/// belongs to the exposure time the turn began with.
pub proof fn lemma_stop_ends_run(pool_size: nat, cursor: nat, turns: Seq<Turn>, k: int)
    requires
        0 <= k < turns.len(),
        run_trace(pool_size, cursor, turns.take(k)).exit is None,
        !turns[k].running_after,
        forall|j: int| k < j < turns.len() ==> !(#[trigger] turns[j]).running,
        turns[k].reply is Ok || turns[k].reply == Err::<(), SVBError>(SVBError::Timeout),
        turns[k].running && turns[k].reply is Ok ==> k + 1 < turns.len(),
    ensures
        run_trace(pool_size, cursor, turns).exit == Some(Ok::<(), SVBError>(())),
        run_trace(pool_size, cursor, turns).reads.len() == if turns[k].running {
            k + 1
        } else {
            k
        },
        turns[k].running ==> run_trace(pool_size, cursor, turns).reads[k].timeout_ms
            == wait_timeout(turns[k].exposure_us as int),
{
    let before = turns.take(k);
    let after = turns.skip(k);
    assert(turns =~= before + after);
    lemma_run_goes_on(pool_size, cursor, before, after);
    if turns[k].running && turns[k].reply is Ok {
        let at = slot_after(pool_size, cursor, k as nat);
        let last = after.drop_first();
        assert(run_trace(pool_size, next_slot(at, pool_size), last).reads.len() == 0);
    }
}

} // verus!
