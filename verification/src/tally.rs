use vstd::prelude::*;

use crate::causes::{
    CAUSE_COUNT, CAUSE_PREY_COLOR_SHIFT, CAUSE_PREY_EATEN, CAUSE_PREY_TO_PREDATOR_MUTATION,
    CAUSE_REPRODUCTION_SPLIT,
};

verus! {

/// Births in one frame of cause counts: reproduction splits, prey turning
/// into predators, and prey changing colour.
pub open spec fn births_in(counts: Seq<u32>) -> int {
    counts[CAUSE_REPRODUCTION_SPLIT as int] + counts[CAUSE_PREY_TO_PREDATOR_MUTATION as int]
        + counts[CAUSE_PREY_COLOR_SHIFT as int]
}

/// Prey eaten in one frame of cause counts.
pub open spec fn eaten_in(counts: Seq<u32>) -> int {
    counts[CAUSE_PREY_EATEN as int] as int
}

/// Mathematical model of an [`EventTally`]: births and prey eaten since the
/// last `take`.
pub struct TallyModel {
    pub births: nat,
    pub eaten: nat,
}

/// The tally after one frame of cause counts: births and prey eaten added;
/// dropped births and the other deaths leave it unchanged.
pub open spec fn recorded(t: TallyModel, counts: Seq<u32>) -> TallyModel {
    TallyModel {
        births: (t.births + births_in(counts)) as nat,
        eaten: (t.eaten + eaten_in(counts)) as nat,
    }
}

/// Two frames of cause counts with the same births and the same prey eaten
/// leave equal tallies equal: the other causes do not reach the tally.
pub proof fn lemma_tally_sees_only_births_and_eaten(
    t: TallyModel,
    a: Seq<u32>,
    b: Seq<u32>,
)
    requires
        a.len() == CAUSE_COUNT,
        b.len() == CAUSE_COUNT,
        births_in(a) == births_in(b),
        eaten_in(a) == eaten_in(b),
    ensures
        recorded(t, a) == recorded(t, b),
{
}

/// A frame adds to the births exactly its reproduction splits (cause 0),
/// prey-to-predator mutations (cause 1) and colour shifts (cause 8), and to the
/// prey eaten exactly its prey-eaten deaths (cause 3).
pub proof fn lemma_recorded_counts(t: TallyModel, counts: Seq<u32>)
    requires
        counts.len() == CAUSE_COUNT,
    ensures
        recorded(t, counts).births == t.births + counts[0] + counts[1] + counts[8],
        recorded(t, counts).eaten == t.eaten + counts[3],
{
}

/// Frames that agree on causes 0, 1, 3 and 8 leave equal tallies equal,
/// however they differ in dropped births (cause 2) or in the other deaths
/// (causes 4 to 7).
pub proof fn lemma_other_causes_ignored(t: TallyModel, a: Seq<u32>, b: Seq<u32>)
    requires
        a.len() == CAUSE_COUNT,
        b.len() == CAUSE_COUNT,
        a[0] == b[0],
        a[1] == b[1],
        a[3] == b[3],
        a[8] == b[8],
    ensures
        recorded(t, a) == recorded(t, b),
{
}

/// Births and prey eaten accumulated over the frames of one audio control
/// window.
pub struct EventTally {
    pending_births: u64,
    pending_eaten: u64,
}

impl View for EventTally {
    type V = TallyModel;

    closed spec fn view(&self) -> TallyModel {
        TallyModel { births: self.pending_births as nat, eaten: self.pending_eaten as nat }
    }
}

impl EventTally {
    /// Nothing counted yet.
    pub fn new() -> (t: EventTally)
        ensures
            t@.births == 0,
            t@.eaten == 0,
    {
        EventTally { pending_births: 0, pending_eaten: 0 }
    }

    /// Whether `record(counts)` stays within the counters' range.
    pub fn can_record(&self, counts: &[u32; CAUSE_COUNT]) -> (ok: bool)
        ensures
            ok == (births_in(counts@) <= u32::MAX && self@.births + births_in(counts@) <= u64::MAX
                && self@.eaten + eaten_in(counts@) <= u64::MAX),
    {
        let split = counts[CAUSE_REPRODUCTION_SPLIT] as u64;
        let mutation = counts[CAUSE_PREY_TO_PREDATOR_MUTATION] as u64;
        let shift = counts[CAUSE_PREY_COLOR_SHIFT] as u64;
        let births = split + mutation + shift;
        births <= 0xffff_ffff && births <= u64::MAX - self.pending_births
            && (counts[CAUSE_PREY_EATEN] as u64) <= u64::MAX - self.pending_eaten
    }

    /// Adds one frame of cause counts; returns the births of that frame.
    pub fn record(&mut self, counts: &[u32; CAUSE_COUNT]) -> (births: u32)
        requires
            births_in(counts@) <= u32::MAX,
            old(self)@.births + births_in(counts@) <= u64::MAX,
            old(self)@.eaten + eaten_in(counts@) <= u64::MAX,
        ensures
            births == births_in(counts@),
            final(self)@ == recorded(old(self)@, counts@),
            final(self)@.eaten == old(self)@.eaten + counts@[3],
            final(self)@.births == old(self)@.births + counts@[0] + counts@[1] + counts@[8],
    {
        let births = counts[CAUSE_REPRODUCTION_SPLIT] + counts[CAUSE_PREY_TO_PREDATOR_MUTATION]
            + counts[CAUSE_PREY_COLOR_SHIFT];
        let eaten = counts[CAUSE_PREY_EATEN];
        self.pending_births = self.pending_births + births as u64;
        self.pending_eaten = self.pending_eaten + eaten as u64;
        births
    }

    /// Hands out (births, prey eaten) counted so far and starts over.
    pub fn take(&mut self) -> (counted: (u64, u64))
        ensures
            counted.0 == old(self)@.births,
            counted.1 == old(self)@.eaten,
            final(self)@.births == 0,
            final(self)@.eaten == 0,
    {
        let counted = (self.pending_births, self.pending_eaten);
        self.pending_births = 0;
        self.pending_eaten = 0;
        counted
    }
}

} // verus!
