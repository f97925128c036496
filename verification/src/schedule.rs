use vstd::prelude::*;

verus! {

/// Largest number of frames encoded into one GPU submission of a headless run.
pub const HEADLESS_MAX_BATCH_FRAMES: u64 = 64;

/// What a headless run does next.
#[derive(Clone, Copy, Debug, PartialEq, Eq, Structural)]
pub enum HeadlessStep {
    /// Simulate `frames` frames in one submission; when `sample` is set, read
    /// the population back afterwards and report it at the new frame number.
    Simulate { frames: u64, sample: bool },
    /// Every frame has been simulated and reported.
    Finished,
    /// Frames remain but the sampling interval is zero, so no batch can reach
    /// a report frame: the run cannot produce its next sample.
    Stalled,
}

/// Mathematical model of a [`HeadlessSchedule`].
pub struct ScheduleModel {
    /// Frames the run simulates in all.
    pub total: u64,
    /// Frames between two population reports.
    pub sample_every: u64,
    /// Frames simulated so far.
    pub done: u64,
    /// Frame of the latest population report (0 before the first batch:
    /// the initial population is reported at frame 0).
    pub last_sample: u64,
    /// Population reports made after the initial one.
    pub samples: nat,
}

/// Frame of the report that follows a report at `last`.
pub open spec fn next_sample_frame(last: int, sample_every: int, total: int) -> int {
    if last + sample_every < total {
        last + sample_every
    } else {
        total
    }
}

/// Frame of the `k`-th report after the initial one: every `sample_every`
/// frames, and the final frame.
pub open spec fn kth_sample_frame(k: nat, sample_every: int, total: int) -> int {
    if k * sample_every < total {
        k * sample_every
    } else {
        total
    }
}

/// Frame-batching plan of a headless run: frames are simulated in batches
/// of at most `HEADLESS_MAX_BATCH_FRAMES`, cut so that a batch ends on every
/// report frame.
pub struct HeadlessSchedule {
    total: u64,
    sample_every: u64,
    done: u64,
    last_sample: u64,
    samples: Ghost<nat>,
}

impl View for HeadlessSchedule {
    type V = ScheduleModel;

    closed spec fn view(&self) -> ScheduleModel {
        ScheduleModel {
            total: self.total,
            sample_every: self.sample_every,
            done: self.done,
            last_sample: self.last_sample,
            samples: self.samples@,
        }
    }
}

impl ScheduleModel {
    /// The plan is consistent: reports are `sample_every` apart and end on the
    /// final frame, and the frames simulated lie between the latest report
    /// and the next one.
    pub open spec fn wf(self) -> bool {
        &&& (self.sample_every > 0 || (self.done == 0 && self.last_sample == 0 && self.samples == 0))
        &&& self.last_sample <= self.done <= self.total
        &&& self.last_sample == kth_sample_frame(self.samples, self.sample_every as int, self.total as int)
        &&& self.samples > 0 ==> (self.samples - 1) * self.sample_every < self.total
        &&& (self.done == self.last_sample || self.done < next_sample_frame(
            self.last_sample as int,
            self.sample_every as int,
            self.total as int,
        ))
    }

    /// Computing the next report frame does not overflow.
    pub open spec fn can_advance(self) -> bool {
        self.done < self.total ==> self.last_sample + self.sample_every <= u64::MAX
    }
}

impl HeadlessSchedule {
    /// The plan of a run of `total` frames reporting every `sample_every` frames.
    pub fn new(total: u64, sample_every: u64) -> (s: HeadlessSchedule)
        ensures
            s@.wf(),
            s@.total == total,
            s@.sample_every == sample_every,
            s@.done == 0,
            s@.last_sample == 0,
            s@.samples == 0,
    {
        HeadlessSchedule { total, sample_every, done: 0, last_sample: 0, samples: Ghost(0) }
    }

    /// Frames simulated so far.
    pub fn frames_done(&self) -> (n: u64)
        ensures
            n == self@.done,
    {
        self.done
    }

    /// Whether the next call of `next_step` is free of overflow; a run whose
    /// report frames pass `u64::MAX` cannot go on.
    pub fn can_advance(&self) -> (ok: bool)
        ensures
            ok == self@.can_advance(),
    {
        self.done >= self.total || self.sample_every <= u64::MAX - self.last_sample
    }

    /// The next batch of frames to simulate, or `Finished`.
    pub fn next_step(&mut self) -> (step: HeadlessStep)
        requires
            old(self)@.wf(),
            old(self)@.can_advance(),
        ensures
            final(self)@.wf(),
            final(self)@.total == old(self)@.total,
            final(self)@.sample_every == old(self)@.sample_every,
            match step {
                HeadlessStep::Finished => {
                    &&& old(self)@.done == old(self)@.total
                    &&& final(self)@ == old(self)@
                },
                HeadlessStep::Stalled => {
                    &&& old(self)@.done < old(self)@.total
                    &&& old(self)@.sample_every == 0
                    &&& final(self)@ == old(self)@
                },
                HeadlessStep::Simulate { frames, sample } => {
                    let target = next_sample_frame(
                        old(self)@.last_sample as int,
                        old(self)@.sample_every as int,
                        old(self)@.total as int,
                    );
                    &&& old(self)@.done < old(self)@.total
                    &&& 1 <= frames <= HEADLESS_MAX_BATCH_FRAMES
                    &&& frames == (if target - old(self)@.done < HEADLESS_MAX_BATCH_FRAMES {
                        target - old(self)@.done
                    } else {
                        HEADLESS_MAX_BATCH_FRAMES as int
                    })
                    &&& final(self)@.done == old(self)@.done + frames
                    &&& sample == (final(self)@.done == target)
                    &&& sample ==> final(self)@.last_sample == final(self)@.done
                        && final(self)@.samples == old(self)@.samples + 1
                    &&& !sample ==> final(self)@.last_sample == old(self)@.last_sample
                        && final(self)@.samples == old(self)@.samples
                },
            },
    {
        if self.done >= self.total {
            return HeadlessStep::Finished;
        }
        let target = if self.last_sample + self.sample_every < self.total {
            self.last_sample + self.sample_every
        } else {
            self.total
        };
        let remaining = target - self.done;
        if remaining == 0 {
            return HeadlessStep::Stalled;
        }
        let frames = if remaining < HEADLESS_MAX_BATCH_FRAMES {
            remaining
        } else {
            HEADLESS_MAX_BATCH_FRAMES
        };
        let ghost k = self.samples@;
        let ghost s = self.sample_every as int;
        proof {
            // The latest report is not the final frame, so it sits at k * s.
            assert(k * s < self.total);
            assert((k + 1) * s == k * s + s) by (nonlinear_arith);
        }
        self.done = self.done + frames;
        let sample = self.done == target;
        if sample {
            self.last_sample = self.done;
            self.samples = Ghost(k + 1);
        }
        HeadlessStep::Simulate { frames, sample }
    }
}

/// A run that has simulated every frame has reported the final frame, after
/// `ceil(total / sample_every)` reports besides the initial one.
pub proof fn lemma_finished_run(m: ScheduleModel)
    requires
        m.wf(),
        m.done == m.total,
    ensures
        m.last_sample == m.total,
        m.samples * m.sample_every >= m.total,
        m.samples == 0 || (m.samples - 1) * m.sample_every < m.total,
{
}

} // verus!
