//! The zoom controller: scroll-wheel events rescale the camera.
//!
//! The camera scale and the scroll deltas are decimal fixed-point numbers. The
//! scale counts ten-thousandths and a delta counts thousandths of a line, so the
//! scale is ten times finer than a delta and a tenth of any delta is exact.

use vstd::prelude::*;

verus! {

/// Scale units in a scale of one.
pub const SCALE_ONE: u32 = 10_000;

/// The smallest camera scale, an eighth.
pub const SCALE_MIN: u32 = 1_250;

/// The largest camera scale, one.
pub const SCALE_MAX: u32 = 10_000;

/// Delta units in a scroll of one line.
pub const DELTA_ONE: i64 = 1_000;

/// The unit in which a scroll event measures its delta.
#[derive(Clone, Copy, Debug, PartialEq, Eq, Structural)]
pub enum ScrollUnit {
    /// Discrete notches of the wheel.
    Line,
    /// Pixels. The zoom controller does not support this unit.
    Pixel,
}

/// One scroll-wheel event: a signed delta, in thousandths of its unit.
#[derive(Clone, Copy, Debug, PartialEq, Eq, Structural)]
pub struct ScrollEvent {
    pub delta: i64,
    pub unit: ScrollUnit,
}

/// Why a scroll event was not applied.
#[derive(Clone, Copy, Debug, PartialEq, Eq, Structural)]
pub enum ZoomError {
    /// The event measures its delta in pixels.
    UnsupportedUnit,
}

/// A scale brought back into the range from `SCALE_MIN` to `SCALE_MAX`.
pub open spec fn clamp_scale(scale: int) -> int {
    if scale < SCALE_MIN {
        SCALE_MIN as int
    } else if scale > SCALE_MAX {
        SCALE_MAX as int
    } else {
        scale
    }
}

/// A tenth of a scroll delta, in scale units.
pub open spec fn zoom_step(delta: int) -> int {
    delta * SCALE_ONE / (10 * DELTA_ONE)
}

/// The scale after a line-based scroll of `delta`: a tenth of the delta is
/// added, and the sum is clamped.
pub open spec fn scale_after_line(scale: int, delta: int) -> int {
    clamp_scale(scale + zoom_step(delta))
}

/// The outcome of a batch of scroll events, taken one at a time in arrival
/// order: the scale that the camera is left with, and whether every event was
/// applied. The scale is clamped after each event, not once at the end. The
/// first pixel-based event ends the batch: the scale stays as the events before
/// it left it, and the events after it are not looked at.
pub open spec fn scale_after_events(scale: int, events: Seq<ScrollEvent>) -> (int, bool)
    decreases events.len(),
{
    if events.len() == 0 {
        (scale, true)
    } else {
        match events[0].unit {
            ScrollUnit::Line => scale_after_events(
                scale_after_line(scale, events[0].delta as int),
                events.skip(1),
            ),
            ScrollUnit::Pixel => (scale, false),
        }
    }
}

/// A tenth of a delta is exact: no rounding enters the scale. In scale units
/// the step is the delta's own number of thousandths.
pub proof fn lemma_zoom_step_is_a_tenth(delta: int)
    ensures
        zoom_step(delta) * 10 * DELTA_ONE == delta * SCALE_ONE,
        zoom_step(delta) == delta,
{
    assert((delta * 10_000) / 10_000 == delta);
}

/// The camera state that the zoom controller owns: one scale, shared by the
/// horizontal and the vertical axis.
#[derive(Clone, Copy, Debug, PartialEq, Eq)]
pub struct CameraState {
    scale: u32,
}

impl View for CameraState {
    type V = int;

    /// The scale, in scale units.
    closed spec fn view(&self) -> int {
        self.scale as int
    }
}

impl CameraState {
    #[verifier::type_invariant]
    spec fn in_range(self) -> bool {
        SCALE_MIN <= self.scale <= SCALE_MAX
    }

    /// A camera at scale one.
    pub fn new() -> (camera: CameraState)
        ensures
            camera@ == SCALE_ONE,
    {
        CameraState { scale: SCALE_ONE }
    }

    /// A camera at the given scale, where the scale lies in the range.
    pub fn with_scale(scale: u32) -> (camera: Option<CameraState>)
        ensures
            camera is Some <==> SCALE_MIN <= scale <= SCALE_MAX,
            camera matches Some(c) ==> c@ == scale,
    {
        if SCALE_MIN <= scale && scale <= SCALE_MAX {
            Some(CameraState { scale })
        } else {
            None
        }
    }

    /// The scale, in scale units.
    pub fn scale(&self) -> (scale: u32)
        ensures
            scale == self@,
            SCALE_MIN <= scale <= SCALE_MAX,
    {
        proof {
            use_type_invariant(self);
        }
        self.scale
    }

    /// Applies one line-based scroll of `delta` thousandths of a line: the
    /// scale moves by a tenth of the delta and is clamped.
    pub fn zoom_by_lines(&mut self, delta: i64)
        ensures
            final(self)@ == scale_after_line(old(self)@, delta as int),
            final(self)@ == clamp_scale(old(self)@ + delta),
    {
        proof {
            use_type_invariant(&*self);
            lemma_zoom_step_is_a_tenth(delta as int);
        }
        let current: i64 = self.scale as i64;
        let room_up: i64 = SCALE_MAX as i64 - current;
        let room_down: i64 = SCALE_MIN as i64 - current;
        if delta >= room_up {
            self.scale = SCALE_MAX;
        } else if delta <= room_down {
            self.scale = SCALE_MIN;
        } else {
            self.scale = (current + delta) as u32;
        }
    }

    /// Applies one scroll event. A line-based event rescales the camera; a
    /// pixel-based event is rejected and leaves the camera as it was.
    pub fn apply_event(&mut self, event: &ScrollEvent) -> (result: Result<(), ZoomError>)
        ensures
            event.unit == ScrollUnit::Line ==> result is Ok && final(self)@ == scale_after_line(
                old(self)@,
                event.delta as int,
            ),
            event.unit == ScrollUnit::Pixel ==> result == Err::<(), ZoomError>(
                ZoomError::UnsupportedUnit,
            ) && final(self)@ == old(self)@,
    {
        match event.unit {
            ScrollUnit::Line => {
                self.zoom_by_lines(event.delta);
                Ok(())
            },
            ScrollUnit::Pixel => Err(ZoomError::UnsupportedUnit),
        }
    }

    /// Applies the scroll events of one frame in arrival order, and stops at
    /// the first event that is rejected.
    pub fn apply_events(&mut self, events: &Vec<ScrollEvent>) -> (result: Result<(), ZoomError>)
        ensures
            (final(self)@, result is Ok) == scale_after_events(old(self)@, events@),
            result is Err ==> result == Err::<(), ZoomError>(ZoomError::UnsupportedUnit),
    {
        let mut i: usize = 0;
        assert(events@.skip(0) =~= events@);
        while i < events.len()
            invariant
                i <= events.len(),
                scale_after_events(old(self)@, events@) == scale_after_events(
                    self@,
                    events@.skip(i as int),
                ),
            decreases events.len() - i,
        {
            assert(events@.skip(i as int).skip(1) =~= events@.skip(i + 1));
            match self.apply_event(&events[i]) {
                Ok(()) => {},
                Err(error) => {
                    return Err(error);
                },
            }
            i += 1;
        }
        Ok(())
    }

    /// The scale of the camera's transform along x and along y: the two axes
    /// of the picture share the camera scale. The zoom controller holds no
    /// depth scale and gives none, so the depth of a transform stays whatever
    /// it was.
    pub fn transform_scale(&self) -> (scale: (u32, u32))
        ensures
            scale.0 == self@,
            scale.1 == self@,
    {
        (self.scale, self.scale)
    }
}

/// Whatever the scale and the delta were, the scale after a scroll lies
/// between an eighth and one.
pub proof fn lemma_scale_stays_in_range(scale: int, delta: int)
    ensures
        SCALE_MIN <= scale_after_line(scale, delta) <= SCALE_MAX,
{
}

/// A scroll that reaches down to the lower bound or past it leaves the camera
/// at exactly an eighth.
pub proof fn lemma_zoom_out_saturates(scale: int, delta: int)
    requires
        scale + zoom_step(delta) <= SCALE_MIN,
    ensures
        scale_after_line(scale, delta) == SCALE_MIN,
{
}

/// A scroll that reaches up to the upper bound or past it leaves the camera
/// at exactly one.
pub proof fn lemma_zoom_in_saturates(scale: int, delta: int)
    requires
        scale + zoom_step(delta) >= SCALE_MAX,
    ensures
        scale_after_line(scale, delta) == SCALE_MAX,
{
}

/// From any scale in the range, a scroll that spans the whole range, eight and
/// three quarter lines or more, reaches the bound on its side.
pub proof fn lemma_full_sweep_saturates(scale: int, delta: int)
    requires
        SCALE_MIN <= scale <= SCALE_MAX,
    ensures
        delta <= SCALE_MIN - SCALE_MAX ==> scale_after_line(scale, delta) == SCALE_MIN,
        delta >= SCALE_MAX - SCALE_MIN ==> scale_after_line(scale, delta) == SCALE_MAX,
{
    lemma_zoom_step_is_a_tenth(delta);
}

/// Two scrolls in a row add up where the first of them was not clamped: the
/// camera ends where one scroll of the summed delta would have left it.
pub proof fn lemma_unclamped_scrolls_add(scale: int, first: int, second: int)
    requires
        SCALE_MIN <= scale + zoom_step(first) <= SCALE_MAX,
    ensures
        scale_after_line(scale_after_line(scale, first), second) == scale_after_line(
            scale,
            first + second,
        ),
{
    lemma_zoom_step_is_a_tenth(first);
    lemma_zoom_step_is_a_tenth(second);
    lemma_zoom_step_is_a_tenth(first + second);
}

/// A batch of line-based events is applied to the end, and the last event of
/// the batch acts on the scale that the events before it produced.
pub proof fn lemma_events_fold(scale: int, events: Seq<ScrollEvent>)
    requires
        events.len() > 0,
        forall|i: int| 0 <= i < events.len() ==> (#[trigger] events[i]).unit == ScrollUnit::Line,
    ensures
        scale_after_events(scale, events).1,
        scale_after_events(scale, events).0 == scale_after_line(
            scale_after_events(scale, events.drop_last()).0,
            events.last().delta as int,
        ),
    decreases events.len(),
{
    let next = scale_after_line(scale, events[0].delta as int);
    let rest = events.skip(1);
    if events.len() == 1 {
        assert(scale_after_events(next, rest) == (next, true));
    } else {
        lemma_events_fold(next, rest);
        assert(rest.drop_last() =~= events.drop_last().skip(1));
    }
}

/// The events of two frames, applied frame by frame, leave the camera where
/// the events of both in one batch would: the second frame acts on the scale
/// that the first has left, unless the first has ended on a rejected event.
pub proof fn lemma_batches_compose(scale: int, first: Seq<ScrollEvent>, second: Seq<ScrollEvent>)
    ensures
        scale_after_events(scale, first + second) == if scale_after_events(scale, first).1 {
            scale_after_events(scale_after_events(scale, first).0, second)
        } else {
            scale_after_events(scale, first)
        },
    decreases first.len(),
{
    if first.len() == 0 {
        assert(first + second =~= second);
    } else {
        let next = scale_after_line(scale, first[0].delta as int);
        lemma_batches_compose(next, first.skip(1), second);
        assert((first + second).skip(1) =~= first.skip(1) + second);
        assert((first + second)[0] == first[0]);
    }
}

} // verus!
