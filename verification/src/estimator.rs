//! Progress of a render job and the estimate of when it will be done.
//!
//! All quantities are fixed-point integers, so that every result is exact and
//! the same on every machine:
//!
//! * a time is a number of milliseconds on the UI clock;
//! * a progress is a number of millionths of the whole job, so that
//!   [`PROGRESS_SCALE`] stands for a finished job.
//!
//! The tracker keeps the last few samples of `(progress, time)`, at most one
//! per second. Each new sample is set against the oldest one that is kept, and
//! the rate of progress between the two is extended from the start of the job
//! to its end.

use crate::render_job::RenderJobState;
use std::collections::VecDeque;
use vstd::arithmetic::div_mod::lemma_fundamental_div_mod_converse;
use vstd::prelude::*;

verus! {

/// How many samples the window holds.
pub const NUM_PROGRESS_SAMPLES: usize = 5;

/// The least time between two samples, in milliseconds.
pub const PROGRESS_SAMPLE_TIME_DELTA: i64 = 1000;

/// The progress of a finished job.
pub const PROGRESS_SCALE: i64 = 1_000_000;

/// One observation of a job's progress.
#[derive(Debug, Clone, Copy, PartialEq, Eq, Structural)]
pub struct ProgressSample {
    /// Millionths of the job that were done.
    pub progress: i64,
    /// When that was observed, in milliseconds.
    pub time: i64,
}

/// What a tracker holds, as plain mathematical values.
pub struct TrackerModel {
    /// The window, oldest sample first.
    pub samples: Seq<ProgressSample>,
    /// The time of the first sample ever taken.
    pub start_time: Option<i64>,
    /// The latest estimate of the completion time.
    pub estimate: Option<i64>,
    /// The progress that was last observed.
    pub last_progress: i64,
}

/// Progress samples of one render job and the completion time that they
/// point to.
#[derive(Debug, Clone)]
pub struct RenderJobTracker {
    last_progress: i64,
    progress_samples: VecDeque<ProgressSample>,
    start_time: Option<i64>,
    estimated_completion_time: Option<i64>,
}

/// The quotient `n / d` rounded down to a whole number, for any sign of `n`
/// and `d`.
pub open spec fn floor_div(n: int, d: int) -> int
    recommends
        d != 0,
{
    if d > 0 {
        n / d
    } else {
        (-n) / (-d)
    }
}

/// Whether a sample taken at `now` is due: the window is empty, or its newest
/// sample is at least [`PROGRESS_SAMPLE_TIME_DELTA`] old.
pub open spec fn sample_due(samples: Seq<ProgressSample>, now: i64) -> bool {
    samples.len() == 0 || now - samples.last().time >= PROGRESS_SAMPLE_TIME_DELTA
}

/// The completion time that the step from `baseline` to `(progress, now)`
/// points to, for a job that started at `start_time`:
///
/// `start_time + (now - baseline.time) / (progress - baseline.progress)`,
///
/// with the progress taken as a fraction of the job and the quotient rounded
/// down to whole milliseconds. There is none where the progress has not
/// moved, nor where the result is not a representable time.
pub open spec fn extrapolation(
    start_time: i64,
    baseline: ProgressSample,
    progress: i64,
    now: i64,
) -> Option<i64> {
    let gained = progress - baseline.progress;
    let elapsed = now - baseline.time;
    if gained == 0 {
        None
    } else {
        let estimate = start_time + floor_div(elapsed * PROGRESS_SCALE, gained);
        if i64::MIN <= estimate <= i64::MAX {
            Some(estimate as i64)
        } else {
            None
        }
    }
}

/// The tracker after `sample(progress, now)`.
///
/// Nothing changes unless a sample is due. Otherwise the start time is fixed
/// if it was not yet, the sample enters the window, from which the oldest
/// sample leaves if the window was full, and the estimate is replaced by the
/// extrapolation from the oldest sample that the window held, if there is
/// one. An estimate is never taken back.
pub open spec fn sampled(tracker: TrackerModel, progress: i64, now: i64) -> TrackerModel {
    if !sample_due(tracker.samples, now) {
        tracker
    } else {
        let start_time = match tracker.start_time {
            Some(t) => t,
            None => now,
        };
        let kept = if tracker.samples.len() >= NUM_PROGRESS_SAMPLES {
            tracker.samples.drop_first()
        } else {
            tracker.samples
        };
        let fresh = if tracker.samples.len() == 0 {
            None
        } else {
            extrapolation(start_time, tracker.samples[0], progress, now)
        };
        TrackerModel {
            samples: kept.push(ProgressSample { progress, time: now }),
            start_time: Some(start_time),
            estimate: if fresh is Some {
                fresh
            } else {
                tracker.estimate
            },
            last_progress: tracker.last_progress,
        }
    }
}

/// The progress of a job in `state` whose graph reports `position` out of
/// `duration` (both in the same unit), in millionths.
///
/// A waiting job has done nothing and a complete one everything. Otherwise
/// the progress is `position / duration`, rounded down and capped at
/// `i64::MAX`; where the graph cannot tell, or the duration is zero, it is
/// the progress that was last observed.
pub open spec fn progress_of<E>(
    state: RenderJobState<E>,
    position: Option<u64>,
    duration: Option<u64>,
    last_progress: i64,
) -> i64 {
    match state {
        RenderJobState::Waiting => 0,
        RenderJobState::Complete { .. } => PROGRESS_SCALE,
        _ => if position is Some && duration is Some && duration.unwrap() > 0 {
            let exact = position.unwrap() * PROGRESS_SCALE / (duration.unwrap() as int);
            if exact <= i64::MAX {
                exact as i64
            } else {
                i64::MAX
            }
        } else {
            last_progress
        },
    }
}

/// The whole seconds, rounded up, from `now` until `estimate`; zero if the
/// estimate lies in the past.
pub open spec fn seconds_until(estimate: i64, now: i64) -> u64 {
    if estimate <= now {
        0
    } else {
        ((estimate - now + 999) / 1000) as u64
    }
}

/// Computes `floor_div` on machine integers.
fn floor_div_wide(n: i128, d: i128) -> (q: i128)
    requires
        d != 0,
        -0x1_0000_0000_0000_0000_0000_0000 < n < 0x1_0000_0000_0000_0000_0000_0000,
        -0x1_0000_0000_0000_0000_0000_0000 < d < 0x1_0000_0000_0000_0000_0000_0000,
    ensures
        q == floor_div(n as int, d as int),
{
    let (num, den): (i128, i128) = if d < 0 {
        (-n, -d)
    } else {
        (n, d)
    };
    assert(floor_div(n as int, d as int) == (num as int) / (den as int));
    let den_u: u128 = den as u128;
    if num >= 0 {
        let quotient: u128 = (num as u128) / den_u;
        quotient as i128
    } else {
        let magnitude: u128 = (-num) as u128;
        let quotient: u128 = (magnitude + (den_u - 1)) / den_u;
        proof {
            let m = magnitude as int;
            let dd = den_u as int;
            let c = quotient as int;
            let r = (m + dd - 1) % dd;
            assert(m + dd - 1 == dd * c + r) by {
                vstd::arithmetic::div_mod::lemma_fundamental_div_mod(m + dd - 1, dd);
            }
            assert(0 <= r < dd) by {
                vstd::arithmetic::div_mod::lemma_mod_bound(m + dd - 1, dd);
            }
            assert(-m == (-c) * dd + (dd - 1 - r)) by (nonlinear_arith)
                requires
                    m + dd - 1 == dd * c + r,
            ;
            lemma_fundamental_div_mod_converse(-m, dd, -c, dd - 1 - r);
        }
        -(quotient as i128)
    }
}

/// Computes [`extrapolation`].
pub fn extrapolate(start_time: i64, baseline: ProgressSample, progress: i64, now: i64) -> (estimate:
    Option<i64>)
    ensures
        estimate == extrapolation(start_time, baseline, progress, now),
{
    let gained: i128 = progress as i128 - baseline.progress as i128;
    let elapsed: i128 = now as i128 - baseline.time as i128;
    if gained == 0 {
        return None;
    }
    assert(-0x1_0000_0000_0000_0000 < elapsed < 0x1_0000_0000_0000_0000);
    assert(-0x1_0000_0000_0000_0000_0000_0000 < elapsed * 1_000_000
        < 0x1_0000_0000_0000_0000_0000_0000) by (nonlinear_arith)
        requires
            -0x1_0000_0000_0000_0000 < elapsed < 0x1_0000_0000_0000_0000,
    ;
    let whole_job: i128 = floor_div_wide(elapsed * 1_000_000, gained);
    assert(-0x1_0000_0000_0000_0000_0000_0000 <= whole_job <= 0x1_0000_0000_0000_0000_0000_0000)
        by {
        lemma_floor_div_bound(elapsed * 1_000_000, gained as int);
    }
    let estimate: i128 = start_time as i128 + whole_job;
    if estimate < i64::MIN as i128 || estimate > i64::MAX as i128 {
        None
    } else {
        Some(estimate as i64)
    }
}

/// A quotient by a whole number other than zero is no larger than the
/// dividend.
proof fn lemma_floor_div_bound(n: int, d: int)
    requires
        d != 0,
    ensures
        n >= 0 ==> -n - 1 <= floor_div(n, d) <= n,
        n < 0 ==> n <= floor_div(n, d) <= -n,
{
    let (num, den) = if d > 0 {
        (n, d)
    } else {
        (-n, -d)
    };
    let q = num / den;
    let r = num % den;
    vstd::arithmetic::div_mod::lemma_fundamental_div_mod(num, den);
    vstd::arithmetic::div_mod::lemma_mod_bound(num, den);
    assert(num == den * q + r);
    assert(num >= 0 ==> 0 <= q <= num) by (nonlinear_arith)
        requires
            num == den * q + r,
            0 <= r < den,
            den >= 1,
    ;
    assert(num < 0 ==> num <= q <= 0) by (nonlinear_arith)
        requires
            num == den * q + r,
            0 <= r < den,
            den >= 1,
    ;
}

/// The estimate is where the straight line through the baseline and the new
/// sample reaches a finished job, counted from the start of the job: the
/// time that a whole job takes at the rate of the last step, to the
/// millisecond below. In particular, where that time is a whole number of
/// milliseconds, the estimate is exact.
pub proof fn lemma_extrapolation_is_linear(
    start_time: i64,
    baseline: ProgressSample,
    progress: i64,
    now: i64,
)
    requires
        progress > baseline.progress,
        extrapolation(start_time, baseline, progress, now) is Some,
    ensures
        ({
            let whole_job = extrapolation(start_time, baseline, progress, now).unwrap() - start_time;
            let gained = progress - baseline.progress;
            let elapsed = now - baseline.time;
            whole_job * gained <= elapsed * PROGRESS_SCALE < (whole_job + 1) * gained
        }),
{
    let gained = progress - baseline.progress;
    let elapsed = now - baseline.time;
    let n = elapsed * PROGRESS_SCALE;
    let q = n / gained;
    let r = n % gained;
    vstd::arithmetic::div_mod::lemma_fundamental_div_mod(n, gained);
    vstd::arithmetic::div_mod::lemma_mod_bound(n, gained);
    assert(q * gained <= n < (q + 1) * gained) by (nonlinear_arith)
        requires
            n == gained * q + r,
            0 <= r < gained,
    ;
}

impl View for RenderJobTracker {
    type V = TrackerModel;

    closed spec fn view(&self) -> TrackerModel {
        TrackerModel {
            samples: self.progress_samples@,
            start_time: self.start_time,
            estimate: self.estimated_completion_time,
            last_progress: self.last_progress,
        }
    }
}

impl RenderJobTracker {
    /// The invariant of a tracker: its window holds no more than
    /// [`NUM_PROGRESS_SAMPLES`] samples, and a start time is fixed once there
    /// is a sample or an estimate. A new tracker is well formed and every
    /// operation keeps it so.
    pub open spec fn wf(&self) -> bool {
        &&& self@.samples.len() <= NUM_PROGRESS_SAMPLES
        &&& self@.samples.len() > 0 || self@.estimate is Some ==> self@.start_time is Some
    }

    /// A tracker that has seen nothing yet.
    pub fn new() -> (tracker: Self)
        ensures
            tracker.wf(),
            tracker@ == (TrackerModel {
                samples: Seq::empty(),
                start_time: None,
                estimate: None,
                last_progress: 0,
            }),
    {
        RenderJobTracker {
            last_progress: 0,
            progress_samples: VecDeque::new(),
            start_time: None,
            estimated_completion_time: None,
        }
    }

    /// The time of the first sample, if one was taken.
    pub fn start_time(&self) -> (t: Option<i64>)
        ensures
            t == self@.start_time,
    {
        self.start_time
    }

    /// The latest estimate of the completion time, if there is one.
    pub fn estimated_completion_time(&self) -> (t: Option<i64>)
        ensures
            t == self@.estimate,
    {
        self.estimated_completion_time
    }

    /// The progress that was last observed.
    pub fn last_progress(&self) -> (p: i64)
        ensures
            p == self@.last_progress,
    {
        self.last_progress
    }

    /// The number of samples in the window.
    pub fn num_samples(&self) -> (n: usize)
        ensures
            n == self@.samples.len(),
    {
        self.progress_samples.len()
    }

    /// Takes a sample of the job's progress at time `now`, unless the newest
    /// sample is less than a second old.
    pub fn sample(&mut self, progress: i64, now: i64)
        ensures
            final(self)@ == sampled(old(self)@, progress, now),
            old(self).wf() ==> final(self).wf(),
            old(self)@.estimate is Some ==> final(self)@.estimate is Some,
    {
        let held = self.progress_samples.len();
        if held > 0 {
            let newest = self.progress_samples[held - 1];
            if (now as i128) - (newest.time as i128) < PROGRESS_SAMPLE_TIME_DELTA as i128 {
                return;
            }
        }
        let start_time = match self.start_time {
            Some(t) => t,
            None => now,
        };
        let baseline = if held >= NUM_PROGRESS_SAMPLES {
            self.progress_samples.pop_front()
        } else if held > 0 {
            Some(self.progress_samples[0])
        } else {
            None
        };
        self.progress_samples.push_back(ProgressSample { progress, time: now });
        self.start_time = Some(start_time);
        match baseline {
            Some(oldest) => {
                match extrapolate(start_time, oldest, progress, now) {
                    Some(estimate) => {
                        self.estimated_completion_time = Some(estimate);
                    },
                    None => {},
                }
            },
            None => {},
        }
        assert(self@.samples =~= sampled(old(self)@, progress, now).samples);
    }

    /// The once-per-frame update of a job in `state` whose graph reports
    /// `position` out of `duration`: works out the progress, takes a sample of
    /// it if the job is waiting or rendering, and remembers it.
    ///
    /// Returns the progress, in millionths.
    pub fn observe<E>(
        &mut self,
        state: &RenderJobState<E>,
        position: Option<u64>,
        duration: Option<u64>,
        now: i64,
    ) -> (progress: i64)
        ensures
            progress == progress_of(*state, position, duration, old(self)@.last_progress),
            final(self)@ == (TrackerModel {
                last_progress: progress,
                ..if *state is Rendering || *state is Waiting {
                    sampled(old(self)@, progress, now)
                } else {
                    old(self)@
                }
            }),
            old(self).wf() ==> final(self).wf(),
    {
        let progress = measure_progress(state, position, duration, self.last_progress);
        match state {
            RenderJobState::Rendering | RenderJobState::Waiting => {
                self.sample(progress, now);
            },
            _ => {},
        }
        self.last_progress = progress;
        progress
    }

    /// The seconds left until the estimated completion, as shown to the user:
    /// only for a job that is rendering or paused, and only once there is an
    /// estimate.
    pub fn time_remaining<E>(&self, state: &RenderJobState<E>, now: i64) -> (seconds: Option<u64>)
        ensures
            seconds == (if (*state is Rendering || *state is Paused) && self@.estimate is Some {
                Some(seconds_until(self@.estimate.unwrap(), now))
            } else {
                None
            }),
    {
        match state {
            RenderJobState::Rendering | RenderJobState::Paused => {
                match self.estimated_completion_time {
                    Some(estimate) => {
                        if estimate <= now {
                            Some(0)
                        } else {
                            let left: i128 = estimate as i128 - now as i128;
                            Some(((left + 999) / 1000) as u64)
                        }
                    },
                    None => None,
                }
            },
            _ => None,
        }
    }
}

/// Computes [`progress_of`].
pub fn measure_progress<E>(
    state: &RenderJobState<E>,
    position: Option<u64>,
    duration: Option<u64>,
    last_progress: i64,
) -> (progress: i64)
    ensures
        progress == progress_of(*state, position, duration, last_progress),
{
    match state {
        RenderJobState::Waiting => 0,
        RenderJobState::Complete { .. } => PROGRESS_SCALE,
        _ => {
            match (position, duration) {
                (Some(done), Some(whole)) => {
                    if whole > 0 {
                        let exact: u128 = (done as u128) * 1_000_000 / (whole as u128);
                        if exact <= i64::MAX as u128 {
                            exact as i64
                        } else {
                            i64::MAX
                        }
                    } else {
                        last_progress
                    }
                },
                _ => last_progress,
            }
        },
    }
}

} // verus!
