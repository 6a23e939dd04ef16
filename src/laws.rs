use vstd::prelude::*;
use crate::config::Layout;
use crate::engine::{compose, lookup_key, matra_after, ComposedView};
use crate::handler::{debounced, event_step, EventType, KeyEvent, OutcomeView};
use crate::keyboard::{spec_is_modifier_non_shift, spec_is_shift, Key};
use crate::state::StateView;

verus! {

/// An unshifted symbol with a mapping, no special rule and no vowel sign to
/// fuse composes to its mapped text, which also becomes the lookback, and is
/// typed after a backspace.
pub proof fn lemma_direct_mapping(layout: &Layout, symbol: Seq<char>, lookback: Option<Seq<char>>)
    requires
        layout.special_rule(symbol) is None,
        layout.mapping(symbol) is Some,
        matra_after(layout, lookback, layout.mapping(symbol)->0) is None,
    ensures
        compose(layout, symbol, false, lookback) == Some(ComposedView::DirectMapping(layout.mapping(symbol)->0)),
        compose(layout, symbol, false, lookback)->0.text() == layout.mapping(symbol)->0,
        compose(layout, symbol, false, lookback)->0.lookback() == layout.mapping(symbol)->0,
        compose(layout, symbol, false, lookback)->0.backspace(),
{
}

/// A symbol with a special rule types the rule's text, with no backspace,
/// whatever the shift state and the lookback.
pub proof fn lemma_special_rule(layout: &Layout, symbol: Seq<char>, shifted: bool, lookback: Option<Seq<char>>)
    requires
        layout.special_rule(symbol) is Some,
    ensures
        compose(layout, symbol, shifted, lookback) == Some(ComposedView::SpecialRule(layout.special_rule(symbol)->0)),
        compose(layout, symbol, shifted, lookback)->0.text() == layout.special_rule(symbol)->0,
        !compose(layout, symbol, shifted, lookback)->0.backspace(),
{
}

/// For a mapped keystroke without a special rule, the vowel sign fuses
/// exactly when the lookback is a consonant and the mapped text has a sign;
/// the sign is then typed and joins the lookback. After a lookback that is
/// not a consonant the same keystroke types its mapped text.
pub proof fn lemma_matra_fusion(
    layout: &Layout,
    symbol: Seq<char>,
    shifted: bool,
    lookback: Seq<char>,
    other: Seq<char>,
)
    requires
        layout.special_rule(symbol) is None,
        layout.mapping(lookup_key(symbol, shifted)) is Some,
    ensures
        ({
            let candidate = layout.mapping(lookup_key(symbol, shifted))->0;
            let c = compose(layout, symbol, shifted, Some(lookback))->0;
            &&& (c is FusedMapping) <==> (layout.is_consonant(lookback) && layout.matra(candidate) is Some)
            &&& c is FusedMapping ==> c.text() == layout.matra(candidate)->0
                && c.lookback() == lookback + layout.matra(candidate)->0
            &&& !layout.is_consonant(other) ==> compose(layout, symbol, shifted, Some(other))
                == Some(ComposedView::DirectMapping(candidate))
        }),
{
}

/// While mapping is off, a key press other than the toggle key, and a release
/// that pairs with no swallowed press, pass through and leave mapping off,
/// the lookback and the suppressed keys as they were.
pub proof fn lemma_disabled_passes(s: StateView, event: &KeyEvent, now: u64, layout: &Layout)
    requires
        !s.mapping_enabled,
        event.event_type != EventType::KeyPress(Key::F10),
        forall|k: Key| event.event_type == EventType::KeyRelease(k) ==> !s.suppressed.contains(k),
    ensures
        event_step(s, event, now, layout).1 == OutcomeView::Forward,
        !event_step(s, event, now, layout).0.mapping_enabled,
        event_step(s, event, now, layout).0.last_char == s.last_char,
        event_step(s, event, now, layout).0.suppressed == s.suppressed,
{
    match event.event_type {
        EventType::KeyRelease(k) => {
            assert(!s.suppressed.contains(k));
        },
        _ => {},
    }
}

/// A press that is swallowed for an injection records its key, so that the
/// matching release is swallowed too.
pub proof fn lemma_injected_press_suppressed(s: StateView, key: Key, name: Option<String>, now: u64, layout: &Layout)
    ensures
        ({
            let (t, o) = event_step(s, &KeyEvent { event_type: EventType::KeyPress(key), name }, now, layout);
            o is Inject ==> t.suppressed.contains(key) && t.suppressed == s.suppressed.insert(key)
        }),
{
}

/// The release of a suppressed key other than shift, meta, alt and control
/// (presses of those are never swallowed), outside injection and debounce, is
/// swallowed and forgets the key, so that a second release of it passes
/// through; the release of a key that is not suppressed passes through.
pub proof fn lemma_release_pairing(s: StateView, key: Key, name: Option<String>, now: u64, later: u64, layout: &Layout)
    requires
        !spec_is_shift(key),
        !spec_is_modifier_non_shift(key),
        !s.injecting,
        !debounced(s, now),
        !debounced(s, later),
    ensures
        ({
            let release = KeyEvent { event_type: EventType::KeyRelease(key), name };
            let (t, o) = event_step(s, &release, now, layout);
            &&& s.suppressed.contains(key) ==> o == OutcomeView::Swallow
                && t.suppressed == s.suppressed.remove(key)
                && event_step(t, &release, later, layout).1 == OutcomeView::Forward
            &&& !s.suppressed.contains(key) ==> o == OutcomeView::Forward
        }),
{
    let release = KeyEvent { event_type: EventType::KeyRelease(key), name };
    let (t, o) = event_step(s, &release, now, layout);
    assert(t.last_inject == s.last_inject);
}

/// Within the debounce window of the last injection every event, and so each
/// of two presses in a row, passes through and changes nothing.
pub proof fn lemma_debounce(s: StateView, first: &KeyEvent, second: &KeyEvent, now: u64, later: u64, layout: &Layout)
    requires
        debounced(s, now),
        debounced(s, later),
    ensures
        event_step(s, first, now, layout) == (s, OutcomeView::Forward),
        event_step(event_step(s, first, now, layout).0, second, later, layout) == (s, OutcomeView::Forward),
{
}

/// While an injection is under way every event passes through and changes
/// nothing: no composition runs.
pub proof fn lemma_reentrancy(s: StateView, event: &KeyEvent, now: u64, layout: &Layout)
    requires
        s.injecting,
    ensures
        event_step(s, event, now, layout) == (s, OutcomeView::Forward),
{
}

/// Outside an injection, an event leaves the injecting flag set exactly when
/// it is answered with an injection, which the caller then reports done.
pub proof fn lemma_injecting_only_for_injection(s: StateView, event: &KeyEvent, now: u64, layout: &Layout)
    requires
        !s.injecting,
    ensures
        event_step(s, event, now, layout).0.injecting <==> event_step(s, event, now, layout).1 is Inject,
{
}

} // verus!
