//! The execution driver's decision logic.  The host loop owns a step
//! counter; on every iteration it asks `render_due` whether a render interval
//! has elapsed.  When it has, the host polls its display sink, presents a
//! freshly rendered frame and advances the scanline counter; otherwise it
//! steps the engine.  The loop ends when the sink signals quit or the engine
//! halts.

use vstd::prelude::*;

verus! {

/// Whether a render interval has elapsed: one render pass every 0x1FF steps,
/// counting the very first step.
pub open spec fn spec_render_due(step_count: u64) -> bool {
    step_count % 0x1FF == 0
}

/// Decides whether the driver should render on this iteration instead of
/// stepping the engine.
pub fn render_due(step_count: u64) -> (r: bool)
    ensures
        r == spec_render_due(step_count),
{
    step_count % 0x1FF == 0
}

} // verus!
