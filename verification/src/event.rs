//! The event vocabulary crossing the hook → consumer boundary, and the
//! translation the hook adapter applies to raw button transitions.

use vstd::prelude::*;

verus! {

/// Identity of a mouse button the overlay tracks.
#[derive(Clone, Copy, PartialEq, Eq, Structural, Debug)]
pub enum ButtonId {
    Primary,
    Secondary,
}

/// Phase of a raw button transition as the hook reports it.
#[derive(Clone, Copy, PartialEq, Eq, Structural, Debug)]
pub enum ButtonPhase {
    Pressed,
    Released,
}

/// One input occurrence. Immutable, no identity beyond its payload, freely
/// copyable across the thread boundary.
#[derive(Clone, Copy, PartialEq, Eq, Structural, Debug)]
pub enum Event {
    ButtonDown(ButtonId),
    ButtonUp(ButtonId),
    PointerMoved(i32, i32),
}

impl Event {
    /// True when the event is a press or release of button `b`.
    pub open spec fn concerns(self, b: ButtonId) -> bool {
        match self {
            Event::ButtonDown(x) => x == b,
            Event::ButtonUp(x) => x == b,
            Event::PointerMoved(_, _) => false,
        }
    }
}

/// The event a raw transition of button `b` translates to: a press becomes
/// `ButtonDown(b)`, a release becomes `ButtonUp(b)`.
pub open spec fn spec_button_event(b: ButtonId, phase: ButtonPhase) -> Event {
    match phase {
        ButtonPhase::Pressed => Event::ButtonDown(b),
        ButtonPhase::Released => Event::ButtonUp(b),
    }
}

/// Hook-adapter translation of a raw button transition.
pub fn button_event(b: ButtonId, phase: ButtonPhase) -> (e: Event)
    ensures
        e == spec_button_event(b, phase),
{
    match phase {
        ButtonPhase::Pressed => Event::ButtonDown(b),
        ButtonPhase::Released => Event::ButtonUp(b),
    }
}

} // verus!
