//! Per-frame bookkeeping of the graphics context.
//!
//! [`State`] is the part of the graphics context that decides: it knows the
//! fixed window size, counts frames, remembers when the frame rate was last
//! reported, and says what is drawn. The GPU objects themselves live with the
//! caller. One frame is two calls: [`State::begin_frame`] before the surface
//! texture is acquired, [`State::complete_frame`] with the outcome of acquiring it.

use vstd::prelude::*;
use crate::clock::{duration_as_nanos, instant_elapsed, instant_now};
use crate::event::WindowEvent;
use crate::frame::{frame_at, Frame, Size};

verus! {

/// Why the next surface texture could not be acquired.
#[derive(Clone, Copy, Debug, PartialEq, Eq, Structural)]
pub enum SurfaceError {
    /// Acquiring timed out.
    Timeout,
    /// The surface changed underneath the viewer.
    Outdated,
    /// The surface was lost.
    Lost,
    /// No memory is left for a new frame.
    OutOfMemory,
}

impl SurfaceError {
    /// A lost surface and exhausted memory end the viewer; a timeout and an
    /// outdated surface only cost the frame.
    pub open spec fn fatal(self) -> bool {
        self == SurfaceError::Lost || self == SurfaceError::OutOfMemory
    }

    /// Whether the render loop must stop on this error.
    pub fn is_fatal(&self) -> (fatal: bool)
        ensures
            fatal == self.fatal(),
    {
        match self {
            SurfaceError::Lost | SurfaceError::OutOfMemory => true,
            SurfaceError::Timeout | SurfaceError::Outdated => false,
        }
    }
}

/// The frame rate is reported on every frame whose number is a multiple of this.
pub const FRAMES_PER_LOG: u32 = 10;

/// The first frame-rate report measures from this time after the start, in
/// nanoseconds: one second.
pub const FIRST_LOG_MARK: u128 = 1_000_000_000;

/// Thousandths of a frame per second that `FRAMES_PER_LOG` frames in one
/// nanosecond amount to: 10 frames x 1000 x 1_000_000_000 ns/s.
pub const FPS_SCALE: u128 = 10_000_000_000_000;

/// A frame rate in thousandths of a frame per second.
///
/// The rate is `milli / 1000` frames per second, negated when `negative` is set.
/// A negative rate comes out when the report's reference time lies after the
/// frame's time, which only the first report can see.
#[derive(Clone, Copy, Debug, PartialEq, Eq, Structural)]
pub struct Fps {
    pub negative: bool,
    pub milli: u64,
}

/// One frame-rate report.
#[derive(Clone, Copy, Debug, PartialEq, Eq, Structural)]
pub struct FrameLog {
    /// Number of the frame that reports.
    pub frame: u32,
    /// The rate since the previous report; `None` when no time has passed.
    pub fps: Option<Fps>,
}

/// What is known of a frame before its surface texture is acquired.
#[derive(Clone, Copy, Debug, PartialEq, Eq, Structural)]
pub struct FrameStart {
    /// Number of the frame, counting from 1.
    pub frame: u32,
    /// Time since the viewer started, in nanoseconds.
    pub time: u128,
    /// The frame-rate report to emit, on the frames that report.
    pub log: Option<FrameLog>,
}

/// The bookkeeping of a [`State`] as plain values.
pub struct StateView {
    /// The window size, fixed when the state is made.
    pub size: Size,
    /// Number of frames begun so far.
    pub frame: u32,
    /// Time of the latest frame-rate report, in nanoseconds since the start.
    pub last_time_elapsed: u128,
}

/// The frame rate over `FRAMES_PER_LOG` frames that took from `last` to `now`.
pub open spec fn frame_rate(last: u128, now: u128) -> Option<Fps> {
    if now == last {
        None
    } else if now > last {
        Some(Fps { negative: false, milli: (FPS_SCALE as int / (now - last)) as u64 })
    } else {
        Some(Fps { negative: true, milli: (FPS_SCALE as int / (last - now)) as u64 })
    }
}

/// Whether the frame with this number reports the frame rate.
pub open spec fn reports(frame: int) -> bool {
    frame % (FRAMES_PER_LOG as int) == 0
}

/// Beginning a frame at time `now`: the bookkeeping afterwards, and the frame's
/// start record.
pub open spec fn begin(s: StateView, now: u128) -> (StateView, FrameStart)
    recommends
        s.frame < u32::MAX,
{
    let frame = (s.frame + 1) as u32;
    if reports(frame as int) {
        (
            StateView { size: s.size, frame, last_time_elapsed: now },
            FrameStart {
                frame,
                time: now,
                log: Some(FrameLog { frame, fps: frame_rate(s.last_time_elapsed, now) }),
            },
        )
    } else {
        (
            StateView { size: s.size, frame, last_time_elapsed: s.last_time_elapsed },
            FrameStart { frame, time: now, log: None },
        )
    }
}

/// Completing a frame: the command list when the surface texture was acquired,
/// the acquisition error otherwise.
pub open spec fn complete(s: StateView, start: FrameStart, acquired: Result<(), SurfaceError>)
    -> Result<Frame, SurfaceError> {
    match acquired {
        Ok(_) => Ok(frame_at(s.size, start.time)),
        Err(e) => Err(e),
    }
}

/// The deciding part of the graphics context.
pub struct State {
    size: Size,
    start_time: std::time::Instant,
    last_time_elapsed: u128,
    frame: u32,
}

impl View for State {
    type V = StateView;

    closed spec fn view(&self) -> StateView {
        StateView {
            size: self.size,
            frame: self.frame,
            last_time_elapsed: self.last_time_elapsed,
        }
    }
}

impl State {
    /// The instant that frame times are measured from.
    pub closed spec fn started(&self) -> std::time::Instant {
        self.start_time
    }

    /// Starts the bookkeeping for a window of the given size; the clock starts now.
    pub fn new(width: u32, height: u32) -> (state: State)
        ensures
            state@ == (StateView {
                size: Size { width, height },
                frame: 0,
                last_time_elapsed: FIRST_LOG_MARK,
            }),
    {
        State {
            size: Size { width, height },
            start_time: instant_now(),
            last_time_elapsed: FIRST_LOG_MARK,
            frame: 0,
        }
    }

    /// The window size.
    pub fn size(&self) -> (size: Size)
        ensures
            size == self@.size,
    {
        self.size
    }

    /// Number of frames begun so far.
    pub fn frame(&self) -> (frame: u32)
        ensures
            frame == self@.frame,
    {
        self.frame
    }

    /// Time of the latest frame-rate report, in nanoseconds since the start.
    pub fn last_time_elapsed(&self) -> (time: u128)
        ensures
            time == self@.last_time_elapsed,
    {
        self.last_time_elapsed
    }

    /// Offers a window event to the context. No event is consumed.
    pub fn input(&mut self, event: &WindowEvent) -> (consumed: bool)
        ensures
            !consumed,
            *final(self) == *old(self),
    {
        false
    }

    /// Advances animation state before a frame. There is none: nothing changes.
    pub fn update(&mut self)
        ensures
            *final(self) == *old(self),
    {
    }

    /// Reads the clock: nanoseconds since the state was made.
    fn elapsed(&self) -> (now: u128) {
        let elapsed = instant_elapsed(&self.start_time);
        duration_as_nanos(&elapsed)
    }

    /// Begins a frame at the current time.
    ///
    /// Whatever the clock says, the frame is begun at that time as
    /// [`State::begin_frame_at`] does it.
    pub fn begin_frame(&mut self) -> (start: FrameStart)
        requires
            old(self)@.frame < u32::MAX,
        ensures
            (final(self)@, start) == begin(old(self)@, start.time),
            final(self).started() == old(self).started(),
    {
        let now = self.elapsed();
        self.begin_frame_at(now)
    }

    /// Begins a frame at time `now`, in nanoseconds since the start.
    ///
    /// The frame counter goes up by one. When the new frame number is a multiple
    /// of `FRAMES_PER_LOG`, the record carries a frame-rate report, measured from
    /// the previous report's time, and `now` becomes the time of the latest report.
    pub fn begin_frame_at(&mut self, now: u128) -> (start: FrameStart)
        requires
            old(self)@.frame < u32::MAX,
        ensures
            (final(self)@, start) == begin(old(self)@, now),
            final(self).started() == old(self).started(),
    {
        self.frame = self.frame + 1;
        let frame = self.frame;
        if frame % FRAMES_PER_LOG == 0 {
            let fps = frames_per_second(self.last_time_elapsed, now);
            self.last_time_elapsed = now;
            FrameStart { frame, time: now, log: Some(FrameLog { frame, fps }) }
        } else {
            FrameStart { frame, time: now, log: None }
        }
    }

    /// Completes a frame that was begun with `start`.
    ///
    /// `acquired` says whether the next surface texture could be had. If so, the
    /// result is the frame's command list: the uniform record with the window
    /// size and the frame's time, a clear, and the quad's draw call. If not, the
    /// error is passed on and nothing is to be drawn.
    pub fn complete_frame(&self, start: &FrameStart, acquired: Result<(), SurfaceError>)
        -> (result: Result<Frame, SurfaceError>)
        ensures
            result == complete(self@, *start, acquired),
    {
        match acquired {
            Ok(_) => Ok(Frame::new(self.size, start.time)),
            Err(e) => Err(e),
        }
    }
}

/// The frame rate over `FRAMES_PER_LOG` frames that took from `last` to `now`,
/// both in nanoseconds. `None` when the two are equal: no rate can be given for
/// no time.
pub fn frames_per_second(last: u128, now: u128) -> (fps: Option<Fps>)
    ensures
        fps == frame_rate(last, now),
{
    if now == last {
        None
    } else if now > last {
        let span: u128 = now - last;
        assert(FPS_SCALE as int / span as int <= FPS_SCALE) by (nonlinear_arith)
            requires
                span >= 1,
        ;
        Some(Fps { negative: false, milli: (FPS_SCALE / span) as u64 })
    } else {
        let span: u128 = last - now;
        assert(FPS_SCALE as int / span as int <= FPS_SCALE) by (nonlinear_arith)
            requires
                span >= 1,
        ;
        Some(Fps { negative: true, milli: (FPS_SCALE / span) as u64 })
    }
}

/// The bookkeeping after one frame has been begun at each of `times`, in order.
pub open spec fn after_frames(s: StateView, times: Seq<u128>) -> StateView
    decreases times.len(),
{
    if times.len() == 0 {
        s
    } else {
        begin(after_frames(s, times.drop_last()), times.last()).0
    }
}

/// The start record of frame `i`, counting from 0, of the frames begun at `times`.
pub open spec fn nth_start(s: StateView, times: Seq<u128>, i: int) -> FrameStart
    recommends
        0 <= i < times.len(),
{
    begin(after_frames(s, times.take(i)), times[i]).1
}

/// The outcome of frame `i`, counting from 0, of the frames begun at `times`,
/// when acquiring its surface texture went as `acquired` says.
pub open spec fn nth_frame(
    s: StateView,
    times: Seq<u128>,
    i: int,
    acquired: Result<(), SurfaceError>,
) -> Result<Frame, SurfaceError>
    recommends
        0 <= i < times.len(),
{
    complete(after_frames(s, times.take(i + 1)), nth_start(s, times, i), acquired)
}

/// Beginning frames counts them and leaves the window size alone: after `n`
/// frames the counter has gone up by `n`.
pub proof fn lemma_frames_are_counted(s: StateView, times: Seq<u128>)
    requires
        s.frame + times.len() <= u32::MAX,
    ensures
        after_frames(s, times).frame == s.frame + times.len(),
        after_frames(s, times).size == s.size,
    decreases times.len(),
{
    if times.len() > 0 {
        lemma_frames_are_counted(s, times.drop_last());
    }
}

/// The frame counter goes up by exactly one with every frame, whether or not its
/// surface texture is acquired, and a frame reports the frame rate exactly when
/// its number is a multiple of `FRAMES_PER_LOG`.
pub proof fn lemma_every_tenth_frame_reports(s: StateView, times: Seq<u128>, i: int)
    requires
        s.frame + times.len() <= u32::MAX,
        0 <= i < times.len(),
    ensures
        after_frames(s, times.take(i + 1)).frame == after_frames(s, times.take(i)).frame + 1,
        nth_start(s, times, i).frame == s.frame + i + 1,
        nth_start(s, times, i).log.is_some() <==> (s.frame + i + 1) % 10 == 0,
        nth_start(s, times, i).log matches Some(log) ==> log.frame == s.frame + i + 1,
{
    lemma_frames_are_counted(s, times.take(i));
    assert(times.take(i + 1).drop_last() =~= times.take(i));
    assert(times.take(i + 1).last() == times[i]);
}

/// The resolution handed to the shader is the window size that the state was
/// made with, on every frame.
pub proof fn lemma_resolution_is_fixed(s: StateView, times: Seq<u128>, i: int)
    requires
        s.frame + times.len() <= u32::MAX,
        0 <= i < times.len(),
    ensures
        nth_frame(s, times, i, Ok(())) matches Ok(frame) && frame.globals.resolution == s.size,
{
    lemma_frames_are_counted(s, times.take(i + 1));
}

/// The time handed to the shader is the clock reading that the frame was begun
/// at. So where the clock does not run backwards from one frame to a later one,
/// neither does the shader's time.
pub proof fn lemma_time_follows_clock(s: StateView, times: Seq<u128>, i: int, j: int)
    requires
        0 <= i <= j < times.len(),
        times[i] <= times[j],
    ensures
        nth_frame(s, times, i, Ok(())) matches Ok(frame) && frame.globals.time == times[i],
        nth_frame(s, times, j, Ok(())) matches Ok(frame) && frame.globals.time == times[j],
        nth_frame(s, times, i, Ok(()))->Ok_0.globals.time <= nth_frame(
            s,
            times,
            j,
            Ok(()),
        )->Ok_0.globals.time,
{
}

} // verus!
