use openlipi::config::Layout;
use openlipi::handler::{handle_event, EventType, KeyEvent, Outcome, DEBOUNCE_MS};
use openlipi::keyboard::Key;
use openlipi::state::GlobalState;

fn s(t: &str) -> String {
    t.to_string()
}

fn sample_layout() -> Layout {
    let mut l = Layout::new();
    l.set_mapping(s("a"), s("X"));
    l.set_mapping(s("A"), s("Y"));
    l.set_mapping(s("i"), s("i"));
    l.add_consonant(s("X"));
    l.set_matra(s("i"), s("ᵢ"));
    l.set_special_rule(s("f"), s("्"));
    l
}

fn press(k: Key) -> KeyEvent {
    KeyEvent { event_type: EventType::KeyPress(k), name: None }
}

fn release(k: Key) -> KeyEvent {
    KeyEvent { event_type: EventType::KeyRelease(k), name: None }
}

/// Feeds an event and, for an injection, reports it done.
fn feed(st: &mut GlobalState, l: &Layout, e: KeyEvent, now: u64) -> Outcome {
    let r = handle_event(e, st, l, now);
    if let Outcome::Inject(_, _) = r {
        assert!(st.is_injecting());
        st.set_injecting(false);
    }
    r
}

#[test]
fn end_to_end_consonant_then_matra() {
    let l = sample_layout();
    let mut st = GlobalState::new();
    assert_eq!(feed(&mut st, &l, press(Key::KeyA), 1000), Outcome::Inject(true, s("X")));
    assert_eq!(st.get_last_char(), Some(s("X")));
    assert_eq!(feed(&mut st, &l, release(Key::KeyA), 1100), Outcome::Swallow);
    assert_eq!(feed(&mut st, &l, press(Key::KeyI), 1200), Outcome::Inject(true, s("ᵢ")));
    assert_eq!(st.get_last_char(), Some(s("Xᵢ")));
}

#[test]
fn toggle_turns_mapping_off_and_on() {
    let l = sample_layout();
    let mut st = GlobalState::new();
    assert!(st.is_mapping_enabled());
    assert_eq!(feed(&mut st, &l, press(Key::F10), 1000), Outcome::Toggled(false));
    assert!(!st.is_mapping_enabled());
    assert_eq!(feed(&mut st, &l, release(Key::F10), 1010), Outcome::Forward);
    assert_eq!(feed(&mut st, &l, press(Key::KeyA), 1100), Outcome::Forward);
    assert_eq!(feed(&mut st, &l, press(Key::F10), 1200), Outcome::Toggled(true));
    assert_eq!(feed(&mut st, &l, press(Key::KeyA), 1300), Outcome::Inject(true, s("X")));
}

#[test]
fn disabled_presses_change_nothing() {
    let l = sample_layout();
    let mut st = GlobalState::new();
    assert_eq!(feed(&mut st, &l, press(Key::KeyA), 1000), Outcome::Inject(true, s("X")));
    assert_eq!(feed(&mut st, &l, release(Key::KeyA), 1100), Outcome::Swallow);
    assert_eq!(feed(&mut st, &l, press(Key::F10), 1200), Outcome::Toggled(false));
    for (i, k) in [Key::KeyA, Key::KeyI, Key::KeyF, Key::KeyA].into_iter().enumerate() {
        let t = 1300 + 100 * i as u64;
        assert_eq!(feed(&mut st, &l, press(k), t), Outcome::Forward);
        assert_eq!(feed(&mut st, &l, release(k), t + 10), Outcome::Forward);
        assert_eq!(st.get_last_char(), Some(s("X")));
    }
}

#[test]
fn swallowed_press_pairs_with_one_release() {
    let l = sample_layout();
    let mut st = GlobalState::new();
    assert_eq!(feed(&mut st, &l, release(Key::KeyA), 900), Outcome::Forward);
    assert_eq!(feed(&mut st, &l, press(Key::KeyA), 1000), Outcome::Inject(true, s("X")));
    assert_eq!(feed(&mut st, &l, release(Key::KeyA), 1100), Outcome::Swallow);
    assert_eq!(feed(&mut st, &l, release(Key::KeyA), 1200), Outcome::Forward);
}

#[test]
fn special_rule_press_has_no_backspace() {
    let l = sample_layout();
    let mut st = GlobalState::new();
    assert_eq!(feed(&mut st, &l, press(Key::KeyF), 1000), Outcome::Inject(false, s("्")));
    assert_eq!(st.get_last_char(), Some(s("्")));
    assert_eq!(feed(&mut st, &l, release(Key::KeyF), 1100), Outcome::Swallow);
}

#[test]
fn presses_within_debounce_window_pass_through() {
    let l = sample_layout();
    let mut st = GlobalState::new();
    assert_eq!(feed(&mut st, &l, press(Key::KeyA), 1000), Outcome::Inject(true, s("X")));
    assert_eq!(st.get_last_inject(), Some(1000));
    assert_eq!(feed(&mut st, &l, press(Key::KeyA), 1010), Outcome::Forward);
    assert_eq!(feed(&mut st, &l, press(Key::KeyA), 1000 + DEBOUNCE_MS - 1), Outcome::Forward);
    assert_eq!(st.get_last_char(), Some(s("X")));
    assert_eq!(feed(&mut st, &l, press(Key::KeyA), 1000 + DEBOUNCE_MS), Outcome::Inject(true, s("X")));
}

#[test]
fn events_during_injection_pass_through() {
    let l = sample_layout();
    let mut st = GlobalState::new();
    assert_eq!(handle_event(press(Key::KeyA), &mut st, &l, 1000), Outcome::Inject(true, s("X")));
    assert!(st.is_injecting());
    let echo = KeyEvent { event_type: EventType::KeyPress(Key::KeyX), name: Some(s("X")) };
    assert_eq!(handle_event(echo, &mut st, &l, 5000), Outcome::Forward);
    assert_eq!(handle_event(press(Key::F10), &mut st, &l, 5000), Outcome::Forward);
    assert!(st.is_mapping_enabled());
    assert_eq!(st.get_last_char(), Some(s("X")));
    st.set_injecting(false);
    assert_eq!(handle_event(press(Key::KeyI), &mut st, &l, 5000), Outcome::Inject(true, s("ᵢ")));
}

#[test]
fn shift_selects_upper_case_mapping() {
    let l = sample_layout();
    let mut st = GlobalState::new();
    assert_eq!(feed(&mut st, &l, press(Key::ShiftLeft), 1000), Outcome::Forward);
    assert!(st.is_shift_pressed());
    assert_eq!(feed(&mut st, &l, press(Key::KeyA), 1100), Outcome::Inject(true, s("Y")));
    assert_eq!(feed(&mut st, &l, release(Key::ShiftLeft), 1200), Outcome::Forward);
    assert!(!st.is_shift_pressed());
    assert_eq!(feed(&mut st, &l, press(Key::KeyA), 1300), Outcome::Inject(true, s("X")));
}

#[test]
fn held_modifier_blocks_mapping() {
    let l = sample_layout();
    let mut st = GlobalState::new();
    assert_eq!(feed(&mut st, &l, press(Key::ControlLeft), 1000), Outcome::Forward);
    assert!(st.are_modifiers_active());
    assert_eq!(feed(&mut st, &l, press(Key::KeyA), 1100), Outcome::Forward);
    assert_eq!(feed(&mut st, &l, release(Key::ControlLeft), 1200), Outcome::Forward);
    assert!(!st.are_modifiers_active());
    assert_eq!(feed(&mut st, &l, press(Key::KeyA), 1300), Outcome::Inject(true, s("X")));
}

#[test]
fn unmapped_key_becomes_lookback() {
    let l = sample_layout();
    let mut st = GlobalState::new();
    assert_eq!(feed(&mut st, &l, press(Key::KeyA), 1000), Outcome::Inject(true, s("X")));
    assert_eq!(feed(&mut st, &l, press(Key::Num5), 1100), Outcome::Forward);
    assert_eq!(st.get_last_char(), Some(s("5")));
    assert_eq!(feed(&mut st, &l, press(Key::KeyI), 1200), Outcome::Inject(true, s("i")));
    assert_eq!(feed(&mut st, &l, press(Key::Space), 1300), Outcome::Forward);
    assert_eq!(st.get_last_char(), Some(s("i")));
}

#[test]
fn platform_name_takes_precedence() {
    let l = sample_layout();
    let mut st = GlobalState::new();
    let e = KeyEvent { event_type: EventType::KeyPress(Key::KeyQ), name: Some(s("a")) };
    assert_eq!(feed(&mut st, &l, e, 1000), Outcome::Inject(true, s("X")));
    let empty = KeyEvent { event_type: EventType::KeyPress(Key::KeyA), name: Some(s("")) };
    assert_eq!(feed(&mut st, &l, empty, 1100), Outcome::Inject(true, s("X")));
}

#[test]
fn other_events_pass_through() {
    let l = sample_layout();
    let mut st = GlobalState::new();
    let e = KeyEvent { event_type: EventType::Other, name: None };
    assert_eq!(feed(&mut st, &l, e, 1000), Outcome::Forward);
}

#[test]
fn state_setters_and_suppression() {
    let mut st = GlobalState::new();
    st.set_shift_pressed(true);
    assert!(st.is_shift_pressed());
    assert!(!st.toggle_mapping());
    assert!(st.toggle_mapping());
    st.set_last_inject(42);
    assert_eq!(st.get_last_inject(), Some(42));
    st.suppress_key(Key::KeyB);
    st.suppress_key(Key::KeyB);
    assert!(st.remove_suppressed_key(Key::KeyB));
    assert!(!st.remove_suppressed_key(Key::KeyB));
    st.update_modifier(Key::MetaLeft, true);
    assert!(st.are_modifiers_active());
    st.set_last_char(Some(s("q")));
    assert_eq!(st.get_last_char(), Some(s("q")));
    st.set_last_char(None);
    assert_eq!(st.get_last_char(), None);
}
