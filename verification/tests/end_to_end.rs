use click_overlay::adapter::{on_button, on_motion};
use click_overlay::bridge::EventBridge;
use click_overlay::consumer::tick;
use click_overlay::event::{ButtonId, ButtonPhase, Event};
use click_overlay::state::IndicatorState;

#[test]
fn press_then_tick_shows_release_then_tick_hides() {
    let bridge = EventBridge::new();
    let mut state = IndicatorState::new();

    on_button(&bridge, ButtonId::Primary, ButtonPhase::Pressed);
    tick(&bridge, &mut state);
    assert!(state.visible(ButtonId::Primary));

    on_button(&bridge, ButtonId::Primary, ButtonPhase::Released);
    tick(&bridge, &mut state);
    assert!(!state.visible(ButtonId::Primary));
}

#[test]
fn mixed_buttons_in_one_drain() {
    let bridge = EventBridge::new();
    let mut state = IndicatorState::new();

    on_button(&bridge, ButtonId::Primary, ButtonPhase::Pressed);
    on_button(&bridge, ButtonId::Secondary, ButtonPhase::Pressed);
    on_button(&bridge, ButtonId::Primary, ButtonPhase::Released);
    let drained = tick(&bridge, &mut state);

    assert_eq!(drained.len(), 3);
    assert!(!state.visible(ButtonId::Primary));
    assert!(state.visible(ButtonId::Secondary));
}

#[test]
fn motion_then_press_places_indicator() {
    let bridge = EventBridge::new();
    let mut state = IndicatorState::new();

    on_motion(&bridge, 100, 200);
    on_button(&bridge, ButtonId::Primary, ButtonPhase::Pressed);
    tick(&bridge, &mut state);

    assert!(state.visible(ButtonId::Primary));
    assert_eq!(state.position(), (100, 200));
}

#[test]
fn empty_tick_is_cheap_and_changes_nothing() {
    let bridge = EventBridge::new();
    let mut state = IndicatorState::new();
    on_button(&bridge, ButtonId::Secondary, ButtonPhase::Pressed);
    tick(&bridge, &mut state);
    let before = state;
    let drained = tick(&bridge, &mut state);
    assert!(drained.is_empty());
    assert_eq!(state, before);
}

#[test]
fn thousand_enqueues_from_four_producer_contexts() {
    // Four producer contexts, 250 events each, every producer's own calls in
    // a fixed known order; the scheduler's interleaving is simulated by
    // rotating through the producers one call at a time.
    let bridge = EventBridge::new();
    for step in 0..250 {
        for producer in 0..4 {
            on_motion(&bridge, producer, step);
        }
    }

    let mut state = IndicatorState::new();
    let drained = tick(&bridge, &mut state);
    assert_eq!(drained.len(), 1000);

    // Each producer's 250 events come back in that producer's own order.
    for producer in 0..4 {
        let stream: Vec<i32> = drained
            .iter()
            .filter_map(|e| match e {
                Event::PointerMoved(p, step) if *p == producer => Some(*step),
                _ => None,
            })
            .collect();
        let expected: Vec<i32> = (0..250).collect();
        assert_eq!(stream, expected);
    }
}
