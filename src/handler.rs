use vstd::prelude::*;
use crate::config::Layout;
use crate::engine::{compose, opt_text, Composition, TypingEngine};
use crate::keyboard::{
    get_key_name, is_modifier_non_shift, is_shift, key_symbol, spec_is_modifier_non_shift,
    spec_is_shift, Key,
};
use crate::state::{GlobalState, StateView};

verus! {

/// Milliseconds after an injection during which every event passes through.
pub const DEBOUNCE_MS: u64 = 50;

/// What happened to a key.
#[derive(Clone, Copy, Debug, PartialEq, Eq, Structural)]
pub enum EventType {
    KeyPress(Key),
    KeyRelease(Key),
    /// Anything else the hook reports (mouse buttons, motion, wheel).
    Other,
}

/// A raw input event: the key transition and the text the platform decoded
/// for it, if any.
#[derive(Debug)]
pub struct KeyEvent {
    pub event_type: EventType,
    pub name: Option<String>,
}

/// What the caller does with an event.
#[derive(Debug, PartialEq, Eq)]
pub enum Outcome {
    /// Deliver the event unchanged.
    Forward,
    /// Drop the event.
    Swallow,
    /// Drop the event; mapping is now on (`true`) or off.
    Toggled(bool),
    /// Drop the event, then send one backspace if the flag is set, then type
    /// the text, then clear the injecting flag with `set_injecting(false)`.
    Inject(bool, String),
}

/// The mathematical form of an `Outcome`.
pub enum OutcomeView {
    Forward,
    Swallow,
    Toggled(bool),
    Inject(bool, Seq<char>),
}

impl View for Outcome {
    type V = OutcomeView;

    open spec fn view(&self) -> OutcomeView {
        match self {
            Outcome::Forward => OutcomeView::Forward,
            Outcome::Swallow => OutcomeView::Swallow,
            Outcome::Toggled(b) => OutcomeView::Toggled(*b),
            Outcome::Inject(b, t) => OutcomeView::Inject(*b, t@),
        }
    }
}

/// Whether `now` falls within the debounce window of the last injection.
pub open spec fn debounced(s: StateView, now: u64) -> bool {
    match s.last_inject {
        Some(t) => (now as int) < t + DEBOUNCE_MS,
        None => false,
    }
}

/// The symbol a keystroke stands for: the platform's non-empty text for it,
/// else the canonical symbol of the key.
pub open spec fn typed_symbol(key: Key, name: Option<Seq<char>>) -> Option<Seq<char>> {
    if name is Some && name->0.len() > 0 {
        name
    } else if let Some(c) = key_symbol(key) {
        Some(seq![c])
    } else {
        None
    }
}

/// A press that reaches composition.
pub open spec fn typing_step(s: StateView, key: Key, name: Option<Seq<char>>, now: u64, layout: &Layout) -> (StateView, OutcomeView) {
    if let Some(sym) = typed_symbol(key, name) {
        if let Some(c) = compose(layout, sym, s.shift_pressed, s.last_char) {
            (
                StateView {
                    last_char: Some(c.lookback()),
                    suppressed: s.suppressed.insert(key),
                    injecting: true,
                    last_inject: Some(now),
                    ..s
                },
                OutcomeView::Inject(c.backspace(), c.text()),
            )
        } else {
            (StateView { last_char: Some(sym), ..s }, OutcomeView::Forward)
        }
    } else {
        (s, OutcomeView::Forward)
    }
}

/// A key press past the guards: toggle, modifiers, shift, then composition.
pub open spec fn press_step(s: StateView, key: Key, name: Option<Seq<char>>, now: u64, layout: &Layout) -> (StateView, OutcomeView) {
    if key == Key::F10 {
        (StateView { mapping_enabled: !s.mapping_enabled, ..s }, OutcomeView::Toggled(!s.mapping_enabled))
    } else if spec_is_modifier_non_shift(key) {
        (StateView { modifiers: s.modifiers.updated(key, true), ..s }, OutcomeView::Forward)
    } else if spec_is_shift(key) {
        (StateView { shift_pressed: true, ..s }, OutcomeView::Forward)
    } else if s.modifiers.spec_is_active() || !s.mapping_enabled {
        (s, OutcomeView::Forward)
    } else {
        typing_step(s, key, name, now, layout)
    }
}

/// A key release past the guards: shift, modifiers, then the release that
/// pairs with a swallowed press.
pub open spec fn release_step(s: StateView, key: Key) -> (StateView, OutcomeView) {
    if spec_is_shift(key) {
        (StateView { shift_pressed: false, ..s }, OutcomeView::Forward)
    } else if spec_is_modifier_non_shift(key) {
        (StateView { modifiers: s.modifiers.updated(key, false), ..s }, OutcomeView::Forward)
    } else if s.suppressed.contains(key) {
        (StateView { suppressed: s.suppressed.remove(key), ..s }, OutcomeView::Swallow)
    } else {
        (s, OutcomeView::Forward)
    }
}

/// The state after an event at time `now`, and what becomes of the event.
pub open spec fn event_step(s: StateView, event: &KeyEvent, now: u64, layout: &Layout) -> (StateView, OutcomeView) {
    if s.injecting || debounced(s, now) {
        (s, OutcomeView::Forward)
    } else {
        match event.event_type {
            EventType::KeyPress(key) => press_step(s, key, opt_text(event.name), now, layout),
            EventType::KeyRelease(key) => release_step(s, key),
            EventType::Other => (s, OutcomeView::Forward),
        }
    }
}

/// Decides what becomes of `event`, which arrived at `now` (milliseconds on
/// a clock that does not go back), and updates `state`.
pub fn handle_event(event: KeyEvent, state: &mut GlobalState, config: &Layout, now: u64) -> (r: Outcome)
    requires
        old(state).wf(),
    ensures
        final(state).wf(),
        (final(state)@, r@) == event_step(old(state)@, &event, now, config),
{
    if state.is_injecting() {
        return Outcome::Forward;
    }
    if let Some(ts) = state.get_last_inject() {
        if now < ts || now - ts < DEBOUNCE_MS {
            return Outcome::Forward;
        }
    }
    match event.event_type {
        EventType::KeyPress(key) => handle_key_press(key, event.name, state, config, now),
        EventType::KeyRelease(key) => handle_key_release(key, state),
        EventType::Other => Outcome::Forward,
    }
}

fn handle_key_press(key: Key, name: Option<String>, state: &mut GlobalState, config: &Layout, now: u64) -> (r: Outcome)
    requires
        old(state).wf(),
    ensures
        final(state).wf(),
        (final(state)@, r@) == press_step(old(state)@, key, opt_text(name), now, config),
{
    if key == Key::F10 {
        let enabled = state.toggle_mapping();
        return Outcome::Toggled(enabled);
    }
    if is_modifier_non_shift(key) {
        state.update_modifier(key, true);
        return Outcome::Forward;
    }
    if is_shift(key) {
        state.set_shift_pressed(true);
        return Outcome::Forward;
    }
    if state.are_modifiers_active() {
        return Outcome::Forward;
    }
    if !state.is_mapping_enabled() {
        return Outcome::Forward;
    }
    match process_typing(key, name, state, config, now) {
        Some(c) => {
            state.suppress_key(key);
            let backspace = c.needs_backspace();
            let text = c.text().clone();
            Outcome::Inject(backspace, text)
        },
        None => Outcome::Forward,
    }
}

fn handle_key_release(key: Key, state: &mut GlobalState) -> (r: Outcome)
    requires
        old(state).wf(),
    ensures
        final(state).wf(),
        (final(state)@, r@) == release_step(old(state)@, key),
{
    if is_shift(key) {
        state.set_shift_pressed(false);
        return Outcome::Forward;
    }
    if is_modifier_non_shift(key) {
        state.update_modifier(key, false);
        return Outcome::Forward;
    }
    if state.remove_suppressed_key(key) {
        return Outcome::Swallow;
    }
    proof {
        assert(old(state)@.suppressed.remove(key) =~= old(state)@.suppressed);
    }
    Outcome::Forward
}

/// Resolves and composes a press; on a composition, marks the injection as
/// begun at `now`. The lookback becomes the composed text, or the resolved
/// symbol when nothing was composed.
fn process_typing(key: Key, name: Option<String>, state: &mut GlobalState, config: &Layout, now: u64) -> (r: Option<Composition>)
    requires
        old(state).wf(),
    ensures
        final(state).wf(),
        final(state)@.suppressed == old(state)@.suppressed,
        ({
            let (s, o) = typing_step(old(state)@, key, opt_text(name), now, config);
            match r {
                Some(c) => o == OutcomeView::Inject(c@.backspace(), c@.text())
                    && s == (StateView { suppressed: old(state)@.suppressed.insert(key), ..final(state)@ }),
                None => o == OutcomeView::Forward && s == final(state)@,
            }
        }),
{
    let key_id = match name {
        Some(n) => {
            if !n.as_str().is_empty() {
                n
            } else {
                match get_key_name(key) {
                    Some(k) => k,
                    None => return None,
                }
            }
        },
        None => match get_key_name(key) {
            Some(k) => k,
            None => return None,
        },
    };
    let shifted = state.is_shift_pressed();
    let last_char = state.get_last_char();
    match TypingEngine::process_key(&key_id, shifted, &last_char, config) {
        Some(c) => {
            state.set_injecting(true);
            state.set_last_inject(now);
            state.set_last_char(Some(c.lookback()));
            Some(c)
        },
        None => {
            state.set_last_char(Some(key_id));
            None
        },
    }
}

} // verus!
