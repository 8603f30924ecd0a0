//! The hook adapter's translation logic: what a registered callback does on
//! the hook's own thread. Minimum work per raw event — construct the event,
//! append it under the lock, return — so the producer thread is never
//! blocked beyond one short critical section, and no transition is dropped
//! or coalesced however fast they arrive.

use vstd::prelude::*;

use crate::bridge::EventBridge;
use crate::event::{button_event, ButtonId, ButtonPhase, Event};

verus! {

/// Callback body for a raw transition of button `b`: translate per
/// `spec_button_event` and enqueue. Each press and each release reaches the
/// queue individually, so the consumer can reconstruct exact pairing.
pub fn on_button(bridge: &EventBridge, b: ButtonId, phase: ButtonPhase) {
    let e = button_event(b, phase);
    bridge.enqueue(e);
}

/// Callback body for raw pointer motion to `(x, y)`: enqueue the motion so
/// it interleaves with button events in true chronological order.
pub fn on_motion(bridge: &EventBridge, x: i32, y: i32) {
    bridge.enqueue(Event::PointerMoved(x, y));
}

} // verus!
