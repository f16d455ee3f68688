//! A/V synchronization decisions: the drop/repeat window around the audio
//! master clock and frame scheduling.

use crate::time::Time;
use vstd::prelude::*;

verus! {

/// The drift, in nanoseconds, at which a frame is dropped (video behind) or
/// repeated (video ahead): 8 ms.
pub const MAX_DRIFT_NS: i64 = 8_000_000;

/// Decision on how to handle a video frame.
#[derive(Debug, Clone, Copy, PartialEq, Eq, Structural)]
pub enum FrameDecision {
    /// Present the frame normally.
    Present,
    /// Drop this frame to catch up.
    Drop,
    /// Repeat the previous frame to slow down.
    Repeat,
}

/// The decision for a frame whose time is `drift` nanoseconds past the audio
/// clock: drop it at `max_drift` or more, repeat the previous one at
/// `-max_drift` or less, present it in between.
pub open spec fn spec_frame_decision(drift: int, max_drift: int) -> FrameDecision {
    if drift >= max_drift {
        FrameDecision::Drop
    } else if drift <= -max_drift {
        FrameDecision::Repeat
    } else {
        FrameDecision::Present
    }
}

/// Decide whether to present, drop or repeat a frame due at `frame_time` when
/// the audio clock reads `audio_time`.
pub fn frame_decision(frame_time: Time, audio_time: Time, max_drift_ns: i64) -> (d: FrameDecision)
    requires
        max_drift_ns >= 0,
    ensures
        d == spec_frame_decision(frame_time.0 - audio_time.0, max_drift_ns as int),
{
    let drift = (frame_time.0 as i128) - (audio_time.0 as i128);
    let max_drift = max_drift_ns as i128;
    if drift >= max_drift {
        FrameDecision::Drop
    } else if drift <= -max_drift {
        FrameDecision::Repeat
    } else {
        FrameDecision::Present
    }
}

/// A frame scheduled for presentation.
#[derive(Debug, Clone, Copy, PartialEq, Eq, Structural)]
pub struct ScheduledFrame {
    pub frame_number: u64,
    pub target_time: Time,
    pub audio_time: Time,
}

impl ScheduledFrame {
    /// How far, in nanoseconds, the frame's target time lies past the audio time.
    pub fn drift_nanos(&self) -> (d: i128)
        ensures
            d == self.target_time.0 - self.audio_time.0,
    {
        (self.target_time.0 as i128) - (self.audio_time.0 as i128)
    }
}

/// The frame to present when frame `frame_number` is due at `target_time` and
/// the audio clock reads `audio_time`: it is due once the audio clock has
/// reached its target time.
pub fn due_frame(frame_number: u64, target_time: Time, audio_time: Time) -> (f: Option<
    ScheduledFrame,
>)
    ensures
        audio_time.0 >= target_time.0 ==> f == Some(
            ScheduledFrame { frame_number, target_time, audio_time },
        ),
        audio_time.0 < target_time.0 ==> f.is_none(),
{
    if audio_time.0 >= target_time.0 {
        Some(ScheduledFrame { frame_number, target_time, audio_time })
    } else {
        None
    }
}

} // verus!

verus! {

/// Law: a new schedule hands out no frame before one frame duration has
/// passed (without drift correction), and hands out frame 0 once it has.
pub proof fn law_fresh_schedule_waits_one_frame(frame_duration: Time, audio_time: Time)
    ensures
        audio_time.0 < frame_duration.0 <==> audio_time.0 < frame_target(frame_duration, 0, Time(0)),
{
}

/// Law: a frame is presented exactly when its drift lies strictly inside the
/// window, and the window is symmetric: a frame as far ahead as another is
/// behind is repeated where the other is dropped.
pub proof fn law_drift_window(drift: int, max_drift: int)
    requires
        max_drift > 0,
    ensures
        (spec_frame_decision(drift, max_drift) == FrameDecision::Present) <==> (-max_drift < drift
            < max_drift),
        (spec_frame_decision(drift, max_drift) == FrameDecision::Drop) <==> (spec_frame_decision(
            -drift,
            max_drift,
        ) == FrameDecision::Repeat),
{
}

} // verus!

verus! {

/// When frame `frame_number` (counting from 0) is due, in nanoseconds: once
/// `frame_number + 1` frame durations have passed, shifted by the drift
/// `correction`. The first frame is thus ready one frame interval after the
/// start, not at once.
pub open spec fn frame_target(frame_duration: Time, frame_number: u64, correction: Time) -> int {
    (frame_number + 1) * frame_duration.0 + correction.0
}

/// The frame bookkeeping of a video scheduler: the frame duration (1/fps),
/// the number of the next frame to schedule and how many frames were
/// presented, dropped and repeated.
#[derive(Debug, Clone, Copy, PartialEq, Eq, Structural)]
pub struct FrameSchedule {
    pub frame_duration: Time,
    pub next_frame_number: u64,
    pub frames_presented: u64,
    pub frames_dropped: u64,
    pub frames_repeated: u64,
}

impl FrameSchedule {
    /// A schedule of frames `frame_duration` apart that starts at frame 0
    /// with nothing presented.
    pub fn new(frame_duration: Time) -> (s: Self)
        ensures
            s == (FrameSchedule {
                frame_duration,
                next_frame_number: 0,
                frames_presented: 0,
                frames_dropped: 0,
                frames_repeated: 0,
            }),
    {
        FrameSchedule {
            frame_duration,
            next_frame_number: 0,
            frames_presented: 0,
            frames_dropped: 0,
            frames_repeated: 0,
        }
    }

    /// When frame `frame_number` is due, with the drift `correction` applied.
    pub fn target_time(&self, frame_number: u64, correction: Time) -> (t: Time)
        requires
            crate::time::fits_i64((frame_number + 1) * self.frame_duration.0),
            crate::time::fits_i64(frame_target(self.frame_duration, frame_number, correction)),
        ensures
            t.0 == frame_target(self.frame_duration, frame_number, correction),
    {
        let slots: i128 = frame_number as i128 + 1;
        assert(slots * self.frame_duration.0 == (frame_number + 1) * self.frame_duration.0);
        let due: i128 = slots * (self.frame_duration.0 as i128);
        Time((due + correction.0 as i128) as i64)
    }

    /// The next frame, once the audio clock has reached its target time (see
    /// `frame_target`); the schedule then moves on to the following frame.
    /// Before that there is no frame and the schedule stays as it was; on a
    /// new schedule without correction, that is so until one frame duration
    /// has passed.
    pub fn next_frame(&mut self, audio_time: Time, correction: Time) -> (f: Option<ScheduledFrame>)
        requires
            crate::time::fits_i64((old(self).next_frame_number + 1) * old(self).frame_duration.0),
            crate::time::fits_i64(
                frame_target(old(self).frame_duration, old(self).next_frame_number, correction),
            ),
            audio_time.0 >= frame_target(
                old(self).frame_duration,
                old(self).next_frame_number,
                correction,
            ) ==> old(self).next_frame_number < u64::MAX,
        ensures
            ({
                let target = frame_target(
                    old(self).frame_duration,
                    old(self).next_frame_number,
                    correction,
                );
                &&& audio_time.0 >= target ==> f == Some(
                    ScheduledFrame {
                        frame_number: old(self).next_frame_number,
                        target_time: Time(target as i64),
                        audio_time,
                    },
                ) && *final(self) == (FrameSchedule {
                    next_frame_number: (old(self).next_frame_number + 1) as u64,
                    ..*old(self)
                })
                &&& audio_time.0 < target ==> f.is_none() && *final(self) == *old(self)
            }),
    {
        let target_time = self.target_time(self.next_frame_number, correction);
        let frame = due_frame(self.next_frame_number, target_time, audio_time);
        if frame.is_some() {
            self.next_frame_number = self.next_frame_number + 1;
        }
        frame
    }

    /// Count a presented frame.
    pub fn frame_presented(&mut self)
        requires
            old(self).frames_presented < u64::MAX,
        ensures
            *final(self) == (FrameSchedule {
                frames_presented: (old(self).frames_presented + 1) as u64,
                ..*old(self)
            }),
    {
        self.frames_presented = self.frames_presented + 1;
    }

    /// Count a dropped frame; the schedule skips past it.
    pub fn frame_dropped(&mut self)
        requires
            old(self).frames_dropped < u64::MAX,
            old(self).next_frame_number < u64::MAX,
        ensures
            *final(self) == (FrameSchedule {
                frames_dropped: (old(self).frames_dropped + 1) as u64,
                next_frame_number: (old(self).next_frame_number + 1) as u64,
                ..*old(self)
            }),
    {
        self.frames_dropped = self.frames_dropped + 1;
        self.next_frame_number = self.next_frame_number + 1;
    }

    /// Count a repeated frame; the schedule stays on the same frame.
    pub fn frame_repeated(&mut self)
        requires
            old(self).frames_repeated < u64::MAX,
        ensures
            *final(self) == (FrameSchedule {
                frames_repeated: (old(self).frames_repeated + 1) as u64,
                ..*old(self)
            }),
    {
        self.frames_repeated = self.frames_repeated + 1;
    }
}

} // verus!
