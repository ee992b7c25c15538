//! Frames per second, averaged over batches of at least one second.

use vstd::prelude::*;

verus! {

pub const NSEC_PER_SEC: u64 = 1_000_000_000;

#[derive(Copy, Clone, PartialEq, Eq, Structural, Debug)]
pub struct FpsCounter {
    pub last_batch_start_time: u64,
    pub num_frames_in_batch: u64,
    pub average_frame_time: u64,
    pub fps: u64,
}

/// The reading of the `time` crate's `precise_time_ns`: a high-resolution
/// counter in nanoseconds since an unspecified epoch. Nothing is claimed of
/// the value.
#[verifier::external_body]
fn precise_time_ns() -> (now: u64) {
    time::precise_time_ns()
}

impl Default for FpsCounter {
    /// A counter whose first batch begins at the present reading of the
    /// clock.
    fn default() -> (r: FpsCounter)
        ensures
            r.wf(),
            r.num_frames_in_batch == 0,
            r.average_frame_time == 1,
            r.fps == 0,
    {
        FpsCounter::starting_at(precise_time_ns())
    }
}

impl FpsCounter {
    /// Whether the average frame time is positive, so that a rate can be
    /// taken from it.
    pub open spec fn wf(self) -> bool {
        self.average_frame_time >= 1
    }

    /// The number of frames in the batch once one more was counted; the
    /// count stops at the largest number it can hold.
    pub open spec fn counted(self) -> u64 {
        if self.num_frames_in_batch < u64::MAX {
            (self.num_frames_in_batch + 1) as u64
        } else {
            self.num_frames_in_batch
        }
    }

    /// Whether a frame at `now` closes the batch: a second or more has
    /// passed since the batch began.
    pub open spec fn closes_batch(self, now: u64) -> bool {
        now >= self.last_batch_start_time && now - self.last_batch_start_time >= NSEC_PER_SEC
    }

    /// The average frame time of the batch that a frame at `now` closes: the
    /// time the batch took over its frames, and never less than a nanosecond.
    pub open spec fn batch_average(self, now: u64) -> u64 {
        let average = (now - self.last_batch_start_time) / (self.counted() as int);
        if average < 1 {
            1
        } else {
            average as u64
        }
    }

    /// The counter after a frame at `now`.
    pub open spec fn after_frame(self, now: u64) -> FpsCounter {
        if self.closes_batch(now) {
            FpsCounter {
                last_batch_start_time: now,
                num_frames_in_batch: 0,
                average_frame_time: self.batch_average(now),
                fps: (NSEC_PER_SEC / self.batch_average(now)) as u64,
            }
        } else {
            FpsCounter {
                num_frames_in_batch: self.counted(),
                fps: (NSEC_PER_SEC / self.average_frame_time) as u64,
                ..self
            }
        }
    }

    /// A counter whose first batch begins at `now`.
    pub fn starting_at(now: u64) -> (r: FpsCounter)
        ensures
            r == (FpsCounter {
                last_batch_start_time: now,
                num_frames_in_batch: 0,
                average_frame_time: 1,
                fps: 0,
            }),
            r.wf(),
    {
        FpsCounter {
            last_batch_start_time: now,
            num_frames_in_batch: 0,
            average_frame_time: 1,
            fps: 0,
        }
    }

    /// A counter whose first batch begins at the present reading of the
    /// clock.
    pub fn new() -> (r: FpsCounter)
        ensures
            r.wf(),
            r.num_frames_in_batch == 0,
            r.average_frame_time == 1,
            r.fps == 0,
    {
        Self::starting_at(precise_time_ns())
    }

    /// Counts a frame drawn at `now`. Once a second has passed since the
    /// batch began, the batch closes: its average frame time is taken and the
    /// next batch begins at `now`. The rate is a second over the average
    /// frame time in force.
    pub fn record_frame(&mut self, now: u64)
        requires
            old(self).wf(),
        ensures
            *final(self) == old(self).after_frame(now),
            final(self).wf(),
    {
        let frames = if self.num_frames_in_batch < u64::MAX {
            self.num_frames_in_batch + 1
        } else {
            self.num_frames_in_batch
        };
        self.num_frames_in_batch = frames;
        if now >= self.last_batch_start_time && now - self.last_batch_start_time >= NSEC_PER_SEC {
            let average = (now - self.last_batch_start_time) / frames;
            self.average_frame_time = if average < 1 {
                1
            } else {
                average
            };
            self.last_batch_start_time = now;
            self.num_frames_in_batch = 0;
        }
        self.fps = NSEC_PER_SEC / self.average_frame_time;
    }

    /// Counts a frame drawn at the present reading of the clock; what holds
    /// afterwards holds whatever the clock read.
    pub fn calculate_fps(&mut self)
        requires
            old(self).wf(),
        ensures
            final(self).wf(),
            exists|now: u64| *final(self) == old(self).after_frame(now),
    {
        let curr_frame_time: u64 = precise_time_ns();
        self.record_frame(curr_frame_time);
    }
}

} // verus!
