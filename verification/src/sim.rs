use vstd::prelude::*;

verus! {

/// Number of boid slots the GPU buffers hold.
pub const BOID_CAPACITY: u32 = 75000;

/// Number of boids a run starts with unless told otherwise.
pub const INITIAL_COUNT: u32 = 32000;

/// Number of workgroups needed to cover `total` invocations with groups of
/// `group` invocations: the ceiling of `total / group`.
pub open spec fn spec_dispatch_count(total: nat, group: nat) -> nat
    recommends
        group > 0,
{
    ((total + group - 1) / group as int) as nat
}

/// Workgroups to dispatch so that every one of `total` items gets an invocation.
pub fn dispatch_count(total: u32, group: u32) -> (count: u32)
    requires
        group > 0,
        total + group <= u32::MAX,
    ensures
        count == spec_dispatch_count(total as nat, group as nat),
        count * group >= total,
        count == 0 || (count - 1) * group < total,
{
    let count = (total + group - 1) / group;
    proof {
        let t = total as int;
        let g = group as int;
        let c = count as int;
        assert(c == (t + g - 1) / g);
        assert(c * g >= t && (c == 0 || (c - 1) * g < t)) by (nonlinear_arith)
            requires
                g > 0,
                t >= 0,
                c == (t + g - 1) / g,
        ;
    }
    count
}


/// Boid flag bits as the compute shaders read them.
pub const FLAG_PREDATOR: u32 = 1;
pub const FLAG_ALIVE: u32 = 2;

/// Period, in frames, of a pulse boid's attract/repel cycle.
pub const PULSE_PERIOD: u32 = 240;

/// Bit position at which a pulse boid's phase is packed.
pub const PULSE_STATE_SHIFT: u32 = 16;

/// Height in pixels reserved for the population graph.
pub const GRAPH_HEIGHT_PX: u32 = 200;

/// Flags of a freshly created living boid.
pub open spec fn spec_boid_flags(predator: bool) -> u32 {
    if predator {
        FLAG_ALIVE | FLAG_PREDATOR
    } else {
        FLAG_ALIVE
    }
}

/// Flags of a freshly created living boid: alive, and a predator if it is one.
pub fn boid_flags(predator: bool) -> (flags: u32)
    ensures
        flags == spec_boid_flags(predator),
        flags & FLAG_ALIVE != 0,
        (flags & FLAG_PREDATOR != 0) == predator,
{
    let flags = FLAG_ALIVE | if predator {
        FLAG_PREDATOR
    } else {
        0
    };
    assert(flags == spec_boid_flags(predator)) by (bit_vector)
        requires
            flags == 2u32 | (if predator {
                1u32
            } else {
                0u32
            }),
    ;
    assert((flags & 2u32 != 0) && ((flags & 1u32 != 0) == predator)) by (bit_vector)
        requires
            flags == 2u32 | (if predator {
                1u32
            } else {
                0u32
            }),
    ;
    flags
}

/// Starting phase of the pulse boid at slot `index`, packed in place: a
/// hash of the slot and the seed reduced to the pulse period, shifted up.
pub open spec fn spec_pulse_state(index: u32, seed: u64) -> u32 {
    let mixed: u32 = ((index as int * 73) % 0x1_0000_0000) as u32 ^ (seed as u32);
    ((mixed % PULSE_PERIOD) * 0x1_0000) as u32
}

/// Packed starting phase of the pulse boid at slot `index`.
pub fn pulse_state(index: u32, seed: u64) -> (state: u32)
    ensures
        state == spec_pulse_state(index, seed),
        state >> PULSE_STATE_SHIFT < PULSE_PERIOD,
        state >> 16 == (index.wrapping_mul(73) ^ (seed as u32)) % 240,
        state & 0xffff == 0,
{
    let mixed: u32 = index.wrapping_mul(73) ^ (seed as u32);
    let phase: u32 = mixed % PULSE_PERIOD;
    let state: u32 = phase << PULSE_STATE_SHIFT;
    assert(state == phase * 0x1_0000 && state >> 16 == phase && state & 0xffff == 0)
        by (bit_vector)
        requires
            phase < 240,
            state == phase << 16,
    ;
    state
}

/// Every phase of the pulse cycle is the starting phase of some pulse boid:
/// for each `p` below `PULSE_PERIOD` there is a slot whose packed state is
/// `p` shifted into place (seed 0 shown; slot `p * 217 mod 240` works, since
/// 73 * 217 leaves 1 modulo 240).
pub proof fn lemma_pulse_phases_cover_period(p: u32)
    requires
        p < PULSE_PERIOD,
    ensures
        exists|index: u32| #[trigger] spec_pulse_state(index, 0) == p * 0x1_0000,
{
    let index: u32 = ((p as int * 217) % 240) as u32;
    let q: int = (p as int * 217) / 240;
    let r: int = index as int;
    assert(p as int * 217 == 240 * q + r) by {
        vstd::arithmetic::div_mod::lemma_fundamental_div_mod(p as int * 217, 240);
    }
    assert(r * 73 == p + 240 * (66 * p - 73 * q)) by (nonlinear_arith)
        requires
            p as int * 217 == 240 * q + r,
    ;
    assert((240 * (66 * p - 73 * q) + p) % 240 == p % 240) by {
        vstd::arithmetic::div_mod::lemma_mod_multiples_vanish(66 * p - 73 * q, p as int, 240);
    }
    assert(r * 73 < 0x1_0000_0000) by (nonlinear_arith)
        requires
            0 <= r < 240,
    ;
    let m: u32 = (r * 73) as u32;
    assert(m ^ 0u32 == m) by (bit_vector);
    assert(((index as int * 73) % 0x1_0000_0000) == r * 73);
    assert(m % 240 == p);
    assert(spec_pulse_state(index, 0) == p * 0x1_0000);
}

/// Heights of the population graph and of the boid view in a window `height`
/// pixels tall: the graph takes up to its reserved height but always leaves
/// the boid view at least one pixel.
pub open spec fn spec_graph_heights(height: u32) -> (u32, u32) {
    let below: u32 = if height >= 1 {
        (height - 1) as u32
    } else {
        0
    };
    let graph: u32 = if GRAPH_HEIGHT_PX <= below {
        GRAPH_HEIGHT_PX
    } else {
        below
    };
    let rest: u32 = (height - graph) as u32;
    (graph, if rest >= 1 {
        rest
    } else {
        1
    })
}

/// Splits a window `height` pixels tall into (graph height, boid view height).
pub fn graph_heights(height: u32) -> (split: (u32, u32))
    ensures
        split == spec_graph_heights(height),
        split.0 <= GRAPH_HEIGHT_PX,
        split.1 >= 1,
        height >= 1 ==> split.0 + split.1 == height,
        height > GRAPH_HEIGHT_PX ==> split.0 == GRAPH_HEIGHT_PX,
        height <= GRAPH_HEIGHT_PX ==> split.1 == 1,
{
    let graph = if GRAPH_HEIGHT_PX < height.saturating_sub(1) {
        GRAPH_HEIGHT_PX
    } else {
        height.saturating_sub(1)
    };
    let rest = height.saturating_sub(graph);
    let boid = if rest > 1 {
        rest
    } else {
        1
    };
    (graph, boid)
}

/// Initial free list of boid slots: every slot from `initial_count` up to the
/// capacity, in order, followed by zeros, with the number of free slots.
pub fn create_dead_free_list(initial_count: u32) -> (r: (Vec<u32>, u32))
    ensures
        r.0.len() == BOID_CAPACITY,
        r.1 == (if initial_count <= BOID_CAPACITY {
            BOID_CAPACITY - initial_count
        } else {
            0
        }),
        forall|k: int| 0 <= k < r.1 ==> #[trigger] r.0@[k] == initial_count + k,
        forall|k: int| r.1 <= k < BOID_CAPACITY ==> #[trigger] r.0@[k] == 0,
{
    let mut list: Vec<u32> = vec![0u32; BOID_CAPACITY as usize];
    let mut count: u32 = 0;
    let mut i: u32 = initial_count;
    while i < BOID_CAPACITY
        invariant
            list.len() == BOID_CAPACITY,
            initial_count <= i,
            initial_count <= BOID_CAPACITY ==> i <= BOID_CAPACITY,
            initial_count > BOID_CAPACITY ==> i == initial_count && count == 0,
            i <= BOID_CAPACITY ==> count == i - initial_count,
            forall|k: int| 0 <= k < count ==> #[trigger] list@[k] == initial_count + k,
            forall|k: int| count <= k < BOID_CAPACITY ==> #[trigger] list@[k] == 0,
        decreases BOID_CAPACITY - i,
    {
        list.set(count as usize, i);
        count += 1;
        i += 1;
    }
    (list, count)
}

/// The first `N` counts read back from the GPU, or all zeros when fewer than
/// `N` words came back.
pub fn counts_from_words<const N: usize>(words: &[u32]) -> (counts: [u32; N])
    ensures
        words@.len() >= N ==> forall|k: int| 0 <= k < N ==> #[trigger] counts@[k] == words@[k],
        words@.len() < N ==> forall|k: int| 0 <= k < N ==> #[trigger] counts@[k] == 0,
{
    let mut counts: [u32; N] = [0u32; N];
    if words.len() >= N {
        let mut i: usize = 0;
        while i < N
            invariant
                words@.len() >= N,
                i <= N,
                forall|k: int| 0 <= k < i ==> #[trigger] counts@[k] == words@[k],
            decreases N - i,
        {
            counts[i] = words[i];
            i += 1;
        }
    }
    counts
}

} // verus!
