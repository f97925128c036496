use vstd::prelude::*;

verus! {

/// Samples per graph point stop doubling once they reach this many.
pub const GRAPH_MAX_SCALE: u32 = 320;

/// The population graph reads counts back from the GPU every this many frames.
pub const GRAPH_READBACK_INTERVAL: u32 = 4;

/// Whether frame `frame` reads the population back for the graph.
pub fn graph_readback_due(frame: u32) -> (due: bool)
    ensures
        due == (frame % GRAPH_READBACK_INTERVAL == 0),
{
    frame % GRAPH_READBACK_INTERVAL == 0
}

/// Samples averaged into one graph point: a power of two, doubling from 1
/// while below `GRAPH_MAX_SCALE`, so at most 512.
pub open spec fn is_graph_scale(scale: u32) -> bool {
    scale == 1 || scale == 2 || scale == 4 || scale == 8 || scale == 16 || scale == 32 || scale
        == 64 || scale == 128 || scale == 256 || scale == 512
}

/// What one population sample does to a graph series.
#[derive(Clone, Copy, Debug, PartialEq, Eq, Structural)]
pub enum GraphAction {
    /// Add the sample to the running sum; no point is made yet.
    Accumulate,
    /// Append the average of the running sum as a new point.
    Append,
    /// Append the new point, then replace each pair of neighbouring points
    /// (an odd last one is dropped) by their average and double the scale.
    AppendAndHalve,
    /// Append the new point, then drop the `drop` oldest points.
    AppendAndTrim { drop: usize },
}

/// The bookkeeping of a graph series after one sample.
#[derive(Clone, Copy, Debug, PartialEq, Eq, Structural)]
pub struct GraphStep {
    pub action: GraphAction,
    /// Points in the series afterwards.
    pub len: usize,
    /// Samples per point afterwards.
    pub scale: u32,
    /// Samples in the running sum afterwards.
    pub acc_count: u32,
}

/// The bookkeeping after one sample arrives at a series of `len` points,
/// `scale` samples per point, with `acc_count` samples already summed and a
/// series wide enough for `width_limit` points.
pub open spec fn spec_graph_step(len: usize, scale: u32, acc_count: u32, width_limit: usize) -> GraphStep {
    let count = acc_count + 1;
    let appended = len + 1;
    if count < scale {
        GraphStep { action: GraphAction::Accumulate, len, scale, acc_count: count as u32 }
    } else if appended <= width_limit {
        GraphStep { action: GraphAction::Append, len: appended as usize, scale, acc_count: 0 }
    } else if scale < GRAPH_MAX_SCALE {
        GraphStep {
            action: GraphAction::AppendAndHalve,
            len: (appended / 2) as usize,
            scale: (scale * 2) as u32,
            acc_count: 0,
        }
    } else {
        GraphStep {
            action: GraphAction::AppendAndTrim { drop: (appended - width_limit) as usize },
            len: width_limit,
            scale,
            acc_count: 0,
        }
    }
}

/// What one sample does to a graph series, in terms of counts: a point is
/// made exactly when the sample completes `scale` samples; the new point
/// lengthens the series by one; halving leaves one point per neighbouring
/// pair of the lengthened series and doubles the scale; trimming drops just
/// enough of the oldest points to fit the width.
pub proof fn lemma_graph_step_counts(len: usize, scale: u32, acc_count: u32, width_limit: usize)
    requires
        is_graph_scale(scale),
        acc_count < scale,
        len < usize::MAX,
    ensures
        ({
            let st = spec_graph_step(len, scale, acc_count, width_limit);
            &&& (st.action is Accumulate) == (acc_count + 1 < scale)
            &&& st.action is Accumulate ==> st.len == len && st.acc_count == acc_count + 1
                && st.scale == scale
            &&& !(st.action is Accumulate) ==> st.acc_count == 0 && acc_count + 1 == scale
            &&& st.action is Append ==> st.len == len + 1 && len + 1 <= width_limit && st.scale == scale
            &&& (st.action is AppendAndHalve || st.action is AppendAndTrim) ==> len + 1 > width_limit
            &&& st.action is AppendAndHalve ==> 2 * st.len <= len + 1 && len + 1 < 2 * st.len + 2
                && st.scale == 2 * scale && scale < GRAPH_MAX_SCALE
            &&& st.action matches GraphAction::AppendAndTrim { drop } ==> st.len + drop == len + 1
                && st.len == width_limit && st.scale == scale && scale >= GRAPH_MAX_SCALE
        }),
{
}

/// Decides what one population sample does to a graph series.
pub fn graph_step(len: usize, scale: u32, acc_count: u32, width_limit: usize) -> (step: GraphStep)
    requires
        is_graph_scale(scale),
        acc_count < scale,
        len < usize::MAX,
    ensures
        step == spec_graph_step(len, scale, acc_count, width_limit),
        is_graph_scale(step.scale),
        step.acc_count < step.scale,
        step.scale >= scale,
        step.action !is AppendAndHalve ==> step.scale == scale,
        step.action is Append ==> step.len <= width_limit,
        step.action is AppendAndTrim ==> step.len == width_limit && scale >= GRAPH_MAX_SCALE,
        step.action is AppendAndHalve ==> step.len == (len + 1) / 2,
        step.action matches GraphAction::AppendAndTrim { drop } ==> step.len + drop == len + 1,
{
    let count = acc_count + 1;
    if count < scale {
        return GraphStep { action: GraphAction::Accumulate, len, scale, acc_count: count };
    }
    let appended = len + 1;
    if appended <= width_limit {
        GraphStep { action: GraphAction::Append, len: appended, scale, acc_count: 0 }
    } else if scale < GRAPH_MAX_SCALE {
        GraphStep { action: GraphAction::AppendAndHalve, len: appended / 2, scale: scale * 2, acc_count: 0 }
    } else {
        GraphStep {
            action: GraphAction::AppendAndTrim { drop: appended - width_limit },
            len: width_limit,
            scale,
            acc_count: 0,
        }
    }
}

} // verus!
