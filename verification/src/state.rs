//! The indicator visibility state machine: per-button visible flags plus the
//! last-known pointer position, driven as a pure fold over the ordered event
//! history. Visibility is a strict function of that history — the most
//! recently processed press with no later release — never of timing, and
//! unexpected orderings degrade to no-ops rather than errors.

use vstd::prelude::*;

use crate::event::{ButtonId, Event};

verus! {

/// Per-button visibility plus the tracked pointer position. Mutated only by
/// the consumer, one event at a time, per the transition table.
#[derive(Clone, Copy, PartialEq, Eq, Structural, Debug)]
pub struct IndicatorState {
    pub primary_visible: bool,
    pub secondary_visible: bool,
    pub pointer_x: i32,
    pub pointer_y: i32,
}

impl IndicatorState {
    /// The startup state: nothing visible, pointer at the default origin.
    pub open spec fn initial() -> IndicatorState {
        IndicatorState { primary_visible: false, secondary_visible: false, pointer_x: 0, pointer_y: 0 }
    }

    /// The visible flag of button `b`.
    pub open spec fn spec_visible(self, b: ButtonId) -> bool {
        match b {
            ButtonId::Primary => self.primary_visible,
            ButtonId::Secondary => self.secondary_visible,
        }
    }

    /// The transition table: a press shows the button's indicator, a release
    /// hides it, motion retargets the pointer, and everything else —
    /// a duplicate press, a release with nothing shown — is a no-op.
    pub open spec fn spec_apply(self, e: Event) -> IndicatorState {
        match e {
            Event::ButtonDown(ButtonId::Primary) => IndicatorState { primary_visible: true, ..self },
            Event::ButtonDown(ButtonId::Secondary) => IndicatorState {
                secondary_visible: true,
                ..self
            },
            Event::ButtonUp(ButtonId::Primary) => IndicatorState { primary_visible: false, ..self },
            Event::ButtonUp(ButtonId::Secondary) => IndicatorState {
                secondary_visible: false,
                ..self
            },
            Event::PointerMoved(x, y) => IndicatorState { pointer_x: x, pointer_y: y, ..self },
        }
    }

    /// The fold: events applied in order, front first, none skipped.
    pub open spec fn spec_apply_seq(self, es: Seq<Event>) -> IndicatorState
        decreases es.len(),
    {
        if es.len() == 0 {
            self
        } else {
            self.spec_apply(es[0]).spec_apply_seq(es.skip(1))
        }
    }

    /// The startup state, executable.
    pub fn new() -> (s: IndicatorState)
        ensures
            s == IndicatorState::initial(),
    {
        IndicatorState { primary_visible: false, secondary_visible: false, pointer_x: 0, pointer_y: 0 }
    }

    /// Whether button `b`'s indicator is currently shown.
    pub fn visible(&self, b: ButtonId) -> (v: bool)
        ensures
            v == self.spec_visible(b),
    {
        match b {
            ButtonId::Primary => self.primary_visible,
            ButtonId::Secondary => self.secondary_visible,
        }
    }

    /// The tracked pointer position used for indicator placement.
    pub fn position(&self) -> (p: (i32, i32))
        ensures
            p.0 == self.pointer_x,
            p.1 == self.pointer_y,
    {
        (self.pointer_x, self.pointer_y)
    }

    /// Apply one event per the transition table.
    pub fn apply(&mut self, e: Event)
        ensures
            *final(self) == old(self).spec_apply(e),
    {
        match e {
            Event::ButtonDown(ButtonId::Primary) => {
                self.primary_visible = true;
            },
            Event::ButtonDown(ButtonId::Secondary) => {
                self.secondary_visible = true;
            },
            Event::ButtonUp(ButtonId::Primary) => {
                self.primary_visible = false;
            },
            Event::ButtonUp(ButtonId::Secondary) => {
                self.secondary_visible = false;
            },
            Event::PointerMoved(x, y) => {
                self.pointer_x = x;
                self.pointer_y = y;
            },
        }
    }

    /// Fold a whole drained batch into the state, in order.
    pub fn apply_all(&mut self, events: &Vec<Event>)
        ensures
            *final(self) == old(self).spec_apply_seq(events@),
    {
        let ghost start: IndicatorState = *self;
        let n = events.len();
        let mut i: usize = 0;
        while i < n
            invariant
                n == events@.len(),
                i <= n,
                *self == start.spec_apply_seq(events@.take(i as int)),
            decreases n - i,
        {
            self.apply(events[i]);
            proof {
                lemma_apply_seq_snoc(start, events@.take(i as int), events@[i as int]);
                assert(events@.take(i as int).push(events@[i as int]) =~= events@.take(
                    i as int + 1,
                ));
            }
            i = i + 1;
        }
        proof {
            assert(events@.take(n as int) =~= events@);
        }
    }
}

/// Unrolling the fold at the back: applying a history and then one more
/// event is applying the history extended by that event.
pub proof fn lemma_apply_seq_snoc(s: IndicatorState, es: Seq<Event>, e: Event)
    ensures
        s.spec_apply_seq(es.push(e)) == s.spec_apply_seq(es).spec_apply(e),
    decreases es.len(),
{
    if es.len() == 0 {
        assert(es.push(e)[0] == e);
        assert(es.push(e).skip(1) =~= Seq::<Event>::empty());
        assert(s.spec_apply_seq(es.push(e)) == s.spec_apply(e).spec_apply_seq(
            Seq::<Event>::empty(),
        ));
    } else {
        lemma_apply_seq_snoc(s.spec_apply(es[0]), es.skip(1), e);
        assert(es.push(e)[0] == es[0]);
        assert(es.push(e).skip(1) =~= es.skip(1).push(e));
        assert(s.spec_apply_seq(es.push(e)) == s.spec_apply(es[0]).spec_apply_seq(
            es.skip(1).push(e),
        ));
    }
}

/// Folds compose over concatenation of batches: processing two drains in
/// turn is processing their concatenation — ticks are associative in the
/// history, so batch boundaries are unobservable.
pub proof fn lemma_apply_seq_concat(s: IndicatorState, es1: Seq<Event>, es2: Seq<Event>)
    ensures
        s.spec_apply_seq(es1 + es2) == s.spec_apply_seq(es1).spec_apply_seq(es2),
    decreases es2.len(),
{
    if es2.len() == 0 {
        assert(es1 + es2 =~= es1);
    } else {
        lemma_apply_seq_concat(s, es1.push(es2[0]), es2.skip(1));
        assert(es1 + es2 =~= es1.push(es2[0]) + es2.skip(1));
        lemma_apply_seq_snoc(s, es1, es2[0]);
    }
}

/// An empty tick changes nothing: visibility persists until an event for the
/// button arrives.
pub proof fn lemma_apply_seq_empty(s: IndicatorState)
    ensures
        s.spec_apply_seq(Seq::<Event>::empty()) == s,
{
}

/// Duplicate presses and duplicate releases are idempotent: the second
/// occurrence in a row is a no-op at the state level.
pub proof fn lemma_duplicate_transition_idempotent(s: IndicatorState, b: ButtonId)
    ensures
        s.spec_apply(Event::ButtonDown(b)).spec_apply(Event::ButtonDown(b)) == s.spec_apply(
            Event::ButtonDown(b),
        ),
        s.spec_apply(Event::ButtonUp(b)).spec_apply(Event::ButtonUp(b)) == s.spec_apply(
            Event::ButtonUp(b),
        ),
{
}

/// Round trip: a press shows the indicator — observable if sampled between
/// the two events — and the matching release hides it again, from any
/// starting state.
pub proof fn lemma_round_trip(s: IndicatorState, b: ButtonId)
    ensures
        s.spec_apply(Event::ButtonDown(b)).spec_visible(b),
        !s.spec_apply(Event::ButtonDown(b)).spec_apply(Event::ButtonUp(b)).spec_visible(b),
{
}

/// Out-of-order guard: a release with the indicator already hidden leaves
/// the state exactly as it was — spurious or unmatched releases are no-ops,
/// never errors.
pub proof fn lemma_spurious_release_is_noop(s: IndicatorState, b: ButtonId)
    requires
        !s.spec_visible(b),
    ensures
        s.spec_apply(Event::ButtonUp(b)) == s,
{
}

/// Independence: a history containing no press or release of button `b`
/// never changes `b`'s visible flag, however the other button's events and
/// pointer motion interleave.
pub proof fn lemma_other_events_independent(s: IndicatorState, es: Seq<Event>, b: ButtonId)
    requires
        forall|i: int| 0 <= i < es.len() ==> !(#[trigger] es[i]).concerns(b),
    ensures
        s.spec_apply_seq(es).spec_visible(b) == s.spec_visible(b),
    decreases es.len(),
{
    if es.len() > 0 {
        lemma_other_events_independent(s.spec_apply(es[0]), es.skip(1), b);
    }
}

/// What an ordered history says button `b`'s flag should be, starting from
/// flag `v0`: the most recent press or release of `b` decides — a press
/// leaves it shown, a release leaves it hidden — and a history that never
/// touches `b` leaves `v0`.
pub open spec fn spec_history_visible(v0: bool, es: Seq<Event>, b: ButtonId) -> bool
    decreases es.len(),
{
    if es.len() == 0 {
        v0
    } else if es.last() == Event::ButtonDown(b) {
        true
    } else if es.last() == Event::ButtonUp(b) {
        false
    } else {
        spec_history_visible(v0, es.drop_last(), b)
    }
}

/// Visibility is a strict function of the ordered processed history, not of
/// timing: after folding any history, `b` is visible exactly when the most
/// recently processed event for `b` was a press with no later release.
pub proof fn lemma_visible_is_history_function(s: IndicatorState, es: Seq<Event>, b: ButtonId)
    ensures
        s.spec_apply_seq(es).spec_visible(b) == spec_history_visible(s.spec_visible(b), es, b),
    decreases es.len(),
{
    if es.len() > 0 {
        lemma_visible_is_history_function(s, es.drop_last(), b);
        lemma_apply_seq_snoc(s, es.drop_last(), es.last());
        assert(es.drop_last().push(es.last()) =~= es);
    }
}

} // verus!
