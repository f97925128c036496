use vstd::prelude::*;

use std::collections::VecDeque;

verus! {

/// Number of birth and death causes the shaders count.
pub const CAUSE_COUNT: usize = 9;

/// Number of most recent frames a rolling cause window covers.
pub const CAUSE_WINDOW_FRAMES: usize = 60;

pub const CAUSE_REPRODUCTION_SPLIT: usize = 0;
pub const CAUSE_PREY_TO_PREDATOR_MUTATION: usize = 1;
pub const CAUSE_BIRTH_DROPPED: usize = 2;
pub const CAUSE_PREY_EATEN: usize = 3;
pub const CAUSE_PREY_LONELINESS: usize = 4;
pub const CAUSE_PREY_OVERCROWDING: usize = 5;
pub const CAUSE_PREDATOR_STARVATION: usize = 6;
pub const CAUSE_OLD_AGE: usize = 7;
pub const CAUSE_PREY_COLOR_SHIFT: usize = 8;

/// Sum of column `c` over a sequence of per-frame cause counts.
pub open spec fn column_total(frames: Seq<[u32; CAUSE_COUNT]>, c: int) -> int
    decreases frames.len(),
{
    if frames.len() == 0 {
        0
    } else {
        column_total(frames.drop_last(), c) + frames.last()@[c]
    }
}

/// Largest of the rolling sums of a window, 0 for no causes.
pub open spec fn peak_of(frames: Seq<[u32; CAUSE_COUNT]>, upto: int) -> int
    decreases upto,
{
    if upto <= 0 {
        0
    } else {
        let rest = peak_of(frames, upto - 1);
        let here = column_total(frames, upto - 1);
        if here > rest {
            here
        } else {
            rest
        }
    }
}

/// The frames a window keeps after `frame` arrives: the newest
/// `CAUSE_WINDOW_FRAMES` frames.
pub open spec fn window_after(frames: Seq<[u32; CAUSE_COUNT]>, frame: [u32; CAUSE_COUNT]) -> Seq<
    [u32; CAUSE_COUNT],
> {
    if frames.len() == CAUSE_WINDOW_FRAMES {
        frames.drop_first().push(frame)
    } else {
        frames.push(frame)
    }
}

/// Mathematical model of a [`CauseState`]: the frames in the rolling window,
/// oldest first, and the largest rolling sum ever seen (at least 1).
#[verifier::ext_equal]
pub struct CauseWindow {
    pub frames: Seq<[u32; CAUSE_COUNT]>,
    pub all_time_max: nat,
}

/// The window after `frame` arrives: the newest frames, and the peak raised
/// to the largest of the new rolling sums.
pub open spec fn push_step(w: CauseWindow, frame: [u32; CAUSE_COUNT]) -> CauseWindow {
    let frames = window_after(w.frames, frame);
    let peak = peak_of(frames, CAUSE_COUNT as int);
    CauseWindow {
        frames,
        all_time_max: if peak > w.all_time_max {
            peak as nat
        } else {
            w.all_time_max
        },
    }
}

/// The window of a fresh [`CauseState`].
pub open spec fn empty_window() -> CauseWindow {
    CauseWindow { frames: Seq::empty(), all_time_max: 1 }
}

/// The window after the frames `pushed` arrive one by one, starting fresh.
pub open spec fn after_pushes(pushed: Seq<[u32; CAUSE_COUNT]>) -> CauseWindow
    decreases pushed.len(),
{
    if pushed.len() == 0 {
        empty_window()
    } else {
        push_step(after_pushes(pushed.drop_last()), pushed.last())
    }
}

/// The newest `CAUSE_WINDOW_FRAMES` of a sequence of frames, in order.
pub open spec fn newest_frames(pushed: Seq<[u32; CAUSE_COUNT]>) -> Seq<[u32; CAUSE_COUNT]> {
    if pushed.len() <= CAUSE_WINDOW_FRAMES {
        pushed
    } else {
        pushed.subrange(pushed.len() - CAUSE_WINDOW_FRAMES, pushed.len() as int)
    }
}

/// The largest rolling sum of any cause over the windows seen after each of
/// the pushes, and at least 1.
pub open spec fn peak_seen(pushed: Seq<[u32; CAUSE_COUNT]>) -> int
    decreases pushed.len(),
{
    if pushed.len() == 0 {
        1
    } else {
        let before = peak_seen(pushed.drop_last());
        let now = peak_of(newest_frames(pushed), CAUSE_COUNT as int);
        if now > before {
            now
        } else {
            before
        }
    }
}

/// Rolling per-cause sums of births and deaths over the last frames.
pub struct CauseState {
    history: VecDeque<[u32; CAUSE_COUNT]>,
    sums: [u64; CAUSE_COUNT],
    all_time_max: u64,
}

impl View for CauseState {
    type V = CauseWindow;

    closed spec fn view(&self) -> CauseWindow {
        CauseWindow { frames: self.history@, all_time_max: self.all_time_max as nat }
    }
}

pub proof fn lemma_column_total_front(frames: Seq<[u32; CAUSE_COUNT]>, c: int)
    requires
        frames.len() > 0,
    ensures
        column_total(frames, c) == frames[0]@[c] + column_total(frames.drop_first(), c),
    decreases frames.len(),
{
    if frames.len() > 1 {
        lemma_column_total_front(frames.drop_last(), c);
        assert(frames.drop_last().drop_first() =~= frames.drop_first().drop_last());
    } else {
        assert(frames.drop_first() =~= Seq::<[u32; CAUSE_COUNT]>::empty());
        assert(frames.drop_last() =~= Seq::<[u32; CAUSE_COUNT]>::empty());
    }
}

pub proof fn lemma_column_total_bounds(frames: Seq<[u32; CAUSE_COUNT]>, c: int)
    requires
        0 <= c < CAUSE_COUNT,
    ensures
        0 <= column_total(frames, c) <= frames.len() * 0xffff_ffff,
    decreases frames.len(),
{
    if frames.len() > 0 {
        lemma_column_total_bounds(frames.drop_last(), c);
    }
}

pub proof fn lemma_peak_bounds(frames: Seq<[u32; CAUSE_COUNT]>, upto: int)
    ensures
        peak_of(frames, upto) >= 0,
        forall|c: int| 0 <= c < upto ==> column_total(frames, c) <= peak_of(frames, upto),
    decreases upto,
{
    if upto > 0 {
        lemma_peak_bounds(frames, upto - 1);
    }
}

impl CauseState {
    /// The window's own bookkeeping is consistent: at most
    /// `CAUSE_WINDOW_FRAMES` frames, each kept sum is its column's total, and
    /// the all-time peak is at least 1 and no smaller than any current sum.
    pub closed spec fn wf(&self) -> bool {
        &&& self.history@.len() <= CAUSE_WINDOW_FRAMES
        &&& forall|c: int|
            0 <= c < CAUSE_COUNT ==> #[trigger] self.sums@[c] == column_total(self.history@, c)
        &&& self.all_time_max >= 1
        &&& self.all_time_max >= peak_of(self.history@, CAUSE_COUNT as int)
    }

    /// Adds one frame of cause counts, dropping the oldest frame once the
    /// window is full, and raises the all-time peak to the largest new sum.
    pub fn push_frame(&mut self, frame: [u32; CAUSE_COUNT])
        requires
            old(self).wf(),
        ensures
            final(self).wf(),
            final(self)@.frames == window_after(old(self)@.frames, frame),
            final(self)@ == push_step(old(self)@, frame),
    {
        let ghost old_frames = self.history@;
        if self.history.len() == CAUSE_WINDOW_FRAMES {
            if let Some(oldest) = self.history.pop_front() {
                let mut i: usize = 0;
                while i < CAUSE_COUNT
                    invariant
                        old_frames.len() > 0,
                        oldest == old_frames[0],
                        self.all_time_max == old(self).all_time_max,
                        self.history@ == old_frames.drop_first(),
                        i <= CAUSE_COUNT,
                        forall|c: int|
                            0 <= c < i ==> #[trigger] self.sums@[c] == column_total(
                                self.history@,
                                c,
                            ),
                        forall|c: int|
                            i <= c < CAUSE_COUNT ==> #[trigger] self.sums@[c] == column_total(
                                old_frames,
                                c,
                            ),
                    decreases CAUSE_COUNT - i,
                {
                    proof {
                        lemma_column_total_front(old_frames, i as int);
                        lemma_column_total_bounds(self.history@, i as int);
                    }
                    self.sums[i] = self.sums[i].saturating_sub(oldest[i] as u64);
                    i += 1;
                }
            }
        }
        let ghost kept = self.history@;
        assert(kept.len() < CAUSE_WINDOW_FRAMES);
        self.history.push_back(frame);
        let mut i: usize = 0;
        while i < CAUSE_COUNT
            invariant
                kept.len() < CAUSE_WINDOW_FRAMES,
                self.history@ == kept.push(frame),
                self.all_time_max == old(self).all_time_max,
                i <= CAUSE_COUNT,
                forall|c: int|
                    0 <= c < i ==> #[trigger] self.sums@[c] == column_total(self.history@, c),
                forall|c: int|
                    i <= c < CAUSE_COUNT ==> #[trigger] self.sums@[c] == column_total(kept, c),
            decreases CAUSE_COUNT - i,
        {
            proof {
                lemma_column_total_bounds(kept, i as int);
                assert(self.history@.drop_last() =~= kept);
            }
            self.sums[i] = self.sums[i] + frame[i] as u64;
            i += 1;
        }
        let mut frame_peak: u64 = 0;
        let mut c: usize = 0;
        while c < CAUSE_COUNT
            invariant
                c <= CAUSE_COUNT,
                self.all_time_max == old(self).all_time_max,
                forall|k: int|
                    0 <= k < CAUSE_COUNT ==> #[trigger] self.sums@[k] == column_total(
                        self.history@,
                        k,
                    ),
                frame_peak == peak_of(self.history@, c as int),
            decreases CAUSE_COUNT - c,
        {
            if self.sums[c] > frame_peak {
                frame_peak = self.sums[c];
            }
            c += 1;
        }
        if frame_peak > self.all_time_max {
            self.all_time_max = frame_peak;
        }
        proof {
            assert(old_frames.len() == CAUSE_WINDOW_FRAMES ==> kept == old_frames.drop_first());
            assert(old_frames.len() != CAUSE_WINDOW_FRAMES ==> kept == old_frames);
        }
    }

    /// Number of frames the window holds.
    pub fn frame_count(&self) -> (n: usize)
        requires
            self.wf(),
        ensures
            n == self@.frames.len(),
    {
        self.history.len()
    }

    /// Rolling sum of cause `cause` over the window.
    pub fn window_sum(&self, cause: usize) -> (sum: u64)
        requires
            self.wf(),
            cause < CAUSE_COUNT,
        ensures
            sum == column_total(self@.frames, cause as int),
    {
        self.sums[cause]
    }

    /// Largest rolling sum ever seen, at least 1.
    pub fn all_time_max(&self) -> (m: u64)
        requires
            self.wf(),
        ensures
            m == self@.all_time_max,
            m >= 1,
    {
        self.all_time_max
    }
}

impl Default for CauseState {
    /// An empty window whose peak starts at 1.
    fn default() -> (s: CauseState)
        ensures
            s.wf(),
            s@ == empty_window(),
            s@ == after_pushes(Seq::empty()),
    {
        let s = CauseState {
            history: VecDeque::with_capacity(CAUSE_WINDOW_FRAMES),
            sums: [0u64; CAUSE_COUNT],
            all_time_max: 1,
        };
        proof {
            lemma_peak_bounds(s.history@, CAUSE_COUNT as int);
            assert(peak_of(s.history@, CAUSE_COUNT as int) <= 1) by {
                lemma_peak_zero(s.history@, CAUSE_COUNT as int);
            }
        }
        s
    }
}

/// After a fresh window has taken the frames `pushed` one by one, it holds
/// the newest `CAUSE_WINDOW_FRAMES` of them in order, and its peak is the
/// largest rolling sum seen after any of the pushes (at least 1), so the
/// peak never falls.
pub proof fn lemma_pushes_keep_newest_frames_and_peak(pushed: Seq<[u32; CAUSE_COUNT]>)
    ensures
        after_pushes(pushed).frames == newest_frames(pushed),
        after_pushes(pushed).frames.len() == (if pushed.len() < CAUSE_WINDOW_FRAMES {
            pushed.len()
        } else {
            CAUSE_WINDOW_FRAMES as nat
        }),
        after_pushes(pushed).all_time_max == peak_seen(pushed),
        pushed.len() > 0 ==> after_pushes(pushed.drop_last()).all_time_max
            <= after_pushes(pushed).all_time_max,
    decreases pushed.len(),
{
    if pushed.len() > 0 {
        let before = pushed.drop_last();
        lemma_pushes_keep_newest_frames_and_peak(before);
        let w = newest_frames(before);
        let x = pushed.last();
        assert(window_after(w, x) =~= newest_frames(pushed));
    }
}

/// The peak of a window is the largest of its per-cause rolling sums: it is
/// at least every one of them and equal to one of them.
pub proof fn lemma_peak_is_largest_cause_sum(frames: Seq<[u32; CAUSE_COUNT]>)
    ensures
        forall|c: int| 0 <= c < CAUSE_COUNT ==> column_total(frames, c) <= peak_of(frames, CAUSE_COUNT as int),
        exists|c: int| 0 <= c < CAUSE_COUNT && #[trigger] column_total(frames, c) == peak_of(
            frames,
            CAUSE_COUNT as int,
        ),
{
    lemma_peak_bounds(frames, CAUSE_COUNT as int);
    lemma_peak_attained(frames, CAUSE_COUNT as int);
}

proof fn lemma_peak_attained(frames: Seq<[u32; CAUSE_COUNT]>, upto: int)
    requires
        1 <= upto <= CAUSE_COUNT,
    ensures
        exists|c: int| 0 <= c < upto && #[trigger] column_total(frames, c) == peak_of(frames, upto),
    decreases upto,
{
    lemma_column_total_bounds(frames, upto - 1);
    if upto == 1 {
        assert(peak_of(frames, 0) == 0);
        assert(column_total(frames, 0) == peak_of(frames, 1));
    } else {
        lemma_peak_attained(frames, upto - 1);
        if column_total(frames, upto - 1) > peak_of(frames, upto - 1) {
            assert(column_total(frames, upto - 1) == peak_of(frames, upto));
        } else {
            let c = choose|c: int| 0 <= c < upto - 1 && #[trigger] column_total(frames, c) == peak_of(frames, upto - 1);
            assert(column_total(frames, c) == peak_of(frames, upto));
        }
    }
}

/// After any pushes onto a fresh window, the all-time peak is 1 or the
/// rolling sum of a single cause in one of the windows seen, and no rolling
/// sum ever seen exceeds it.
pub proof fn lemma_all_time_peak_is_a_cause_sum(pushed: Seq<[u32; CAUSE_COUNT]>)
    ensures
        after_pushes(pushed).all_time_max == 1 || exists|k: int, c: int|
            1 <= k <= pushed.len() && 0 <= c < CAUSE_COUNT && #[trigger] column_total(
                newest_frames(pushed.take(k)),
                c,
            ) == after_pushes(pushed).all_time_max,
        forall|k: int, c: int|
            1 <= k <= pushed.len() && 0 <= c < CAUSE_COUNT ==> #[trigger] column_total(
                newest_frames(pushed.take(k)),
                c,
            ) <= after_pushes(pushed).all_time_max,
    decreases pushed.len(),
{
    lemma_pushes_keep_newest_frames_and_peak(pushed);
    if pushed.len() > 0 {
        let before = pushed.drop_last();
        lemma_all_time_peak_is_a_cause_sum(before);
        lemma_pushes_keep_newest_frames_and_peak(before);
        lemma_peak_is_largest_cause_sum(newest_frames(pushed));
        assert(pushed.take(pushed.len() as int) =~= pushed);
        assert forall|k: int| 1 <= k <= before.len() implies #[trigger] pushed.take(k) =~= before.take(k) by {}
        let now = peak_of(newest_frames(pushed), CAUSE_COUNT as int);
        if now > peak_seen(before) {
            let c = choose|c: int| 0 <= c < CAUSE_COUNT && #[trigger] column_total(newest_frames(pushed), c) == now;
            assert(column_total(newest_frames(pushed.take(pushed.len() as int)), c) == now);
        } else {
            if peak_seen(before) != 1 {
                let (k, c) = choose|k: int, c: int|
                    1 <= k <= before.len() && 0 <= c < CAUSE_COUNT && #[trigger] column_total(
                        newest_frames(before.take(k)),
                        c,
                    ) == after_pushes(before).all_time_max;
                assert(pushed.take(k) =~= before.take(k));
            }
        }
        assert forall|k: int, c: int|
            1 <= k <= pushed.len() && 0 <= c < CAUSE_COUNT implies #[trigger] column_total(
                newest_frames(pushed.take(k)),
                c,
            ) <= after_pushes(pushed).all_time_max by {
            if k <= before.len() {
                assert(pushed.take(k) =~= before.take(k));
            } else {
                assert(pushed.take(k) =~= pushed);
            }
        }
    }
}

/// Every rolling sum of a window lies at or below its all-time peak.
pub proof fn lemma_window_sums_below_peak(s: &CauseState, cause: int)
    requires
        s.wf(),
        0 <= cause < CAUSE_COUNT,
    ensures
        column_total(s@.frames, cause) <= s@.all_time_max,
{
    lemma_peak_bounds(s@.frames, CAUSE_COUNT as int);
}

pub proof fn lemma_peak_zero(frames: Seq<[u32; CAUSE_COUNT]>, upto: int)
    requires
        frames.len() == 0,
    ensures
        peak_of(frames, upto) == 0,
    decreases upto,
{
    if upto > 0 {
        lemma_peak_zero(frames, upto - 1);
    }
}

} // verus!
