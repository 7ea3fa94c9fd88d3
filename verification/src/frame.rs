//! Frames and their delivery to consumers.
//!
//! A frame is lent to its consumers for the length of one dispatch: each
//! consumer sees it once, in the order the consumers were registered, and
//! none may keep the pixel buffer. A consumer that fails does not keep the
//! frame from those registered after it; its failure is handed back to the
//! caller, and acquisition goes on.

use vstd::prelude::*;

verus! {

/// The pixels of one frame, borrowed from the buffer they were read into.
pub enum FrameData<'a> {
    U8Frame(&'a [u8]),
    U16Frame(&'a [u16]),
}

impl<'a> FrameData<'a> {
    /// Number of pixels in the frame.
    pub open spec fn len_spec(&self) -> nat {
        match *self {
            FrameData::U8Frame(samples) => samples@.len(),
            FrameData::U16Frame(samples) => samples@.len(),
        }
    }

    /// Number of pixels in the frame.
    pub fn len(&self) -> (n: usize)
        ensures
            n == self.len_spec(),
    {
        match self {
            FrameData::U8Frame(samples) => samples.len(),
            FrameData::U16Frame(samples) => samples.len(),
        }
    }
}

/// The pixel types a frame buffer may be made of: 8-bit and 16-bit samples,
/// alone or in groups of three for packed RGB.
pub trait PixelType {
    /// Size of one pixel in bytes.
    spec fn pixel_bytes_spec() -> nat;

    /// Size of one pixel in bytes.
    fn pixel_bytes() -> (bytes: usize)
        ensures
            bytes == Self::pixel_bytes_spec(),
    ;
}

impl PixelType for u8 {
    open spec fn pixel_bytes_spec() -> nat {
        1
    }

    fn pixel_bytes() -> (bytes: usize) {
        1
    }
}

impl PixelType for u16 {
    open spec fn pixel_bytes_spec() -> nat {
        2
    }

    fn pixel_bytes() -> (bytes: usize) {
        2
    }
}

impl PixelType for [u8; 3] {
    open spec fn pixel_bytes_spec() -> nat {
        3
    }

    fn pixel_bytes() -> (bytes: usize) {
        3
    }
}

impl PixelType for [u16; 3] {
    open spec fn pixel_bytes_spec() -> nat {
        6
    }

    fn pixel_bytes() -> (bytes: usize) {
        6
    }
}

/// Size in bytes of a buffer of `pixels` pixels, as the SDK is told it:
/// `None` if the size does not fit the SDK's signed 64-bit length.
pub fn buffer_bytes<T: PixelType>(pixels: usize) -> (bytes: Option<i64>)
    ensures
        bytes == if pixels * T::pixel_bytes_spec() <= i64::MAX {
            Some((pixels * T::pixel_bytes_spec()) as i64)
        } else {
            None
        },
{
    let each = T::pixel_bytes();
    assert(pixels * each <= u64::MAX * u64::MAX) by (nonlinear_arith)
        requires
            pixels <= u64::MAX,
            each <= u64::MAX,
    ;
    let total: u128 = (pixels as u128) * (each as u128);
    if total <= i64::MAX as u128 {
        Some(total as i64)
    } else {
        None
    }
}

/// One frame as a consumer sees it.
pub struct CapturedFrame<'a> {
    /// The pixels, row by row.
    pub data: FrameData<'a>,
    /// Pixels per row.
    pub width: usize,
    /// Number of rows.
    pub height: usize,
    /// When the read of the frame returned, in microseconds since the Unix
    /// epoch. This stands in for the centre of integration.
    pub timestamp: i64,
    /// Exposure time in effect when the frame was requested, in microseconds.
    pub exposure_us: i32,
    /// Significant bits per sample, where known.
    pub bit_depth: Option<u32>,
}

/// A consumer's report that it could not handle a frame.
#[derive(Debug)]
pub struct ConsumerError {
    pub message: String,
}

/// A consumer of frames.
pub trait CameraCallback {
    /// Called once for every frame. The frame must not be kept beyond the
    /// call; a consumer that needs the pixels later copies them.
    fn on_video_frame(&mut self, frame: &CapturedFrame<'_>) -> Result<(), ConsumerError>;
}

/// The positions of the failures among the outcomes of a dispatch.
pub open spec fn failed_positions(outcomes: Seq<Result<(), ConsumerError>>) -> Seq<usize>
    decreases outcomes.len(),
{
    if outcomes.len() == 0 {
        Seq::empty()
    } else if outcomes.last() is Err {
        failed_positions(outcomes.drop_last()).push((outcomes.len() - 1) as usize)
    } else {
        failed_positions(outcomes.drop_last())
    }
}

/// The consumers that failed, by their position in the order of
/// registration, lowest first.
pub fn failures(outcomes: &Vec<Result<(), ConsumerError>>) -> (failed: Vec<usize>)
    ensures
        failed@ == failed_positions(outcomes@),
{
    let mut failed: Vec<usize> = Vec::new();
    let mut i: usize = 0;
    while i < outcomes.len()
        invariant
            i <= outcomes.len(),
            failed@ == failed_positions(outcomes@.take(i as int)),
        decreases outcomes.len() - i,
    {
        proof {
            assert(outcomes@.take(i + 1).drop_last() =~= outcomes@.take(i as int));
        }
        if outcomes[i].is_err() {
            failed.push(i);
        }
        i += 1;
    }
    proof {
        assert(outcomes@.take(i as int) =~= outcomes@);
    }
    failed
}

/// The consumers of a camera's frames, in the order they were registered.
pub struct FrameDispatcher<C: CameraCallback> {
    consumers: Vec<C>,
}

impl<C: CameraCallback> FrameDispatcher<C> {
    /// The registered consumers, first registered first.
    pub closed spec fn consumers(&self) -> Seq<C> {
        self.consumers@
    }

    /// A dispatcher without consumers.
    pub fn new() -> (dispatcher: Self)
        ensures
            dispatcher.consumers() == Seq::<C>::empty(),
    {
        FrameDispatcher { consumers: Vec::new() }
    }

    /// Registers a consumer behind those already registered.
    pub fn register(&mut self, consumer: C)
        ensures
            final(self).consumers() == old(self).consumers().push(consumer),
    {
        self.consumers.push(consumer);
    }

    /// Number of registered consumers.
    pub fn len(&self) -> (n: usize)
        ensures
            n == self.consumers().len(),
    {
        self.consumers.len()
    }

    /// Hands the frame to every consumer, in order of registration, and
    /// returns what each of them answered, in the same order. Every consumer
    /// is called once, with this frame: it is left as that call leaves it
    /// and its answer is the answer of that call. A failure does not end the
    /// dispatch.
    pub fn dispatch(&mut self, frame: &CapturedFrame<'_>) -> (outcomes: Vec<
        Result<(), ConsumerError>,
    >)
        ensures
            outcomes@.len() == old(self).consumers().len(),
            final(self).consumers().len() == old(self).consumers().len(),
            forall|i: int|
                0 <= i < outcomes@.len() ==> {
                    let answer = #[trigger] outcomes@[i];
                    exists|call: &mut C|
                        mut_ref_current(call) == old(self).consumers()[i] && mut_ref_future(call)
                            == final(self).consumers()[i] && #[trigger] call_ensures(
                            C::on_video_frame,
                            (call, frame),
                            answer,
                        )
                },
    {
        let mut outcomes: Vec<Result<(), ConsumerError>> = Vec::new();
        let n = self.consumers.len();
        let mut i: usize = 0;
        while i < n
            invariant
                i <= n,
                n == self.consumers@.len(),
                n == old(self).consumers@.len(),
                outcomes@.len() == i,
                forall|j: int| i <= j < n ==> self.consumers@[j] == old(self).consumers@[j],
                forall|j: int|
                    0 <= j < i ==> {
                        let answer = #[trigger] outcomes@[j];
                        exists|call: &mut C|
                            mut_ref_current(call) == old(self).consumers@[j] && mut_ref_future(call)
                                == self.consumers@[j] && #[trigger] call_ensures(
                                C::on_video_frame,
                                (call, frame),
                                answer,
                            )
                    },
            decreases n - i,
        {
            let outcome = self.consumers[i].on_video_frame(frame);
            outcomes.push(outcome);
            i += 1;
        }
        outcomes
    }
}

} // verus!
