//! The consumer loop body: once per tick, drain the bridge and fold every
//! drained event into the indicator state, in order. This is the only
//! writer of the state; the fold is deterministic and replayable from the
//! event history, with no branching on timing.

use vstd::prelude::*;

use crate::bridge::EventBridge;
use crate::event::Event;
use crate::state::IndicatorState;

verus! {

/// One tick: drain everything currently queued and apply it, in order. The
/// state afterwards is exactly the fold of the drained batch over the state
/// before — no event skipped, none applied out of order — and the drained
/// batch is returned for the presentation layer or a recorded log.
pub fn tick(bridge: &EventBridge, state: &mut IndicatorState) -> (drained: Vec<Event>)
    ensures
        *final(state) == old(state).spec_apply_seq(drained@),
{
    let drained = bridge.drain_all();
    state.apply_all(&drained);
    drained
}

} // verus!
