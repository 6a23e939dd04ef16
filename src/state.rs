use vstd::prelude::*;
use crate::keyboard::{Key, ModifierState};
use crate::engine::opt_text;

verus! {

/// The mathematical form of the engine's mutable state.
pub struct StateView {
    pub shift_pressed: bool,
    pub mapping_enabled: bool,
    /// When the last injection was decided, in milliseconds.
    pub last_inject: Option<u64>,
    /// Keys whose press was swallowed and whose release is still due.
    pub suppressed: Set<Key>,
    pub modifiers: ModifierState,
    /// The most recently composed or typed text, one token of lookback.
    pub last_char: Option<Seq<char>>,
    /// True from the decision to inject until the caller reports the
    /// injection done.
    pub injecting: bool,
}

/// Where `key` stands in `keys`, if it does.
fn position(keys: &Vec<Key>, key: Key) -> (r: Option<usize>)
    ensures
        r is None <==> !keys@.contains(key),
        r matches Some(i) ==> i < keys@.len() && keys@[i as int] == key,
{
    let mut i: usize = 0;
    while i < keys.len()
        invariant
            i <= keys@.len(),
            forall|j: int| 0 <= j < i ==> keys@[j] != key,
        decreases keys@.len() - i,
    {
        if keys[i] == key {
            return Some(i);
        }
        i = i + 1;
    }
    None
}

/// The engine's mutable state, owned by whoever delivers the key events.
pub struct GlobalState {
    shift_pressed: bool,
    mapping_enabled: bool,
    last_inject: Option<u64>,
    suppressed_keys: Vec<Key>,
    modifiers: ModifierState,
    last_char: Option<String>,
    injecting: bool,
}

impl View for GlobalState {
    type V = StateView;

    closed spec fn view(&self) -> StateView {
        StateView {
            shift_pressed: self.shift_pressed,
            mapping_enabled: self.mapping_enabled,
            last_inject: self.last_inject,
            suppressed: self.suppressed_keys@.to_set(),
            modifiers: self.modifiers,
            last_char: opt_text(self.last_char),
            injecting: self.injecting,
        }
    }
}

impl GlobalState {
    /// Each suppressed key is recorded once.
    pub closed spec fn wf(&self) -> bool {
        self.suppressed_keys@.no_duplicates()
    }

    /// Shift up, mapping on, nothing injected, suppressed or typed yet.
    pub fn new() -> (r: GlobalState)
        ensures
            r.wf(),
            r@ == (StateView {
                shift_pressed: false,
                mapping_enabled: true,
                last_inject: None,
                suppressed: Set::empty(),
                modifiers: ModifierState { meta: false, alt: false, ctrl: false },
                last_char: None,
                injecting: false,
            }),
    {
        let r = GlobalState {
            shift_pressed: false,
            mapping_enabled: true,
            last_inject: None,
            suppressed_keys: Vec::new(),
            modifiers: ModifierState::new(),
            last_char: None,
            injecting: false,
        };
        proof {
            assert(r.suppressed_keys@.to_set() =~= Set::empty());
        }
        r
    }

    pub fn is_shift_pressed(&self) -> (r: bool)
        ensures
            r == self@.shift_pressed,
    {
        self.shift_pressed
    }

    pub fn set_shift_pressed(&mut self, pressed: bool)
        requires
            old(self).wf(),
        ensures
            final(self).wf(),
            final(self)@ == (StateView { shift_pressed: pressed, ..old(self)@ }),
    {
        self.shift_pressed = pressed;
    }

    pub fn is_mapping_enabled(&self) -> (r: bool)
        ensures
            r == self@.mapping_enabled,
    {
        self.mapping_enabled
    }

    /// Flips the mapping on or off and returns the new setting.
    pub fn toggle_mapping(&mut self) -> (r: bool)
        requires
            old(self).wf(),
        ensures
            final(self).wf(),
            r == !old(self)@.mapping_enabled,
            final(self)@ == (StateView { mapping_enabled: r, ..old(self)@ }),
    {
        self.mapping_enabled = !self.mapping_enabled;
        self.mapping_enabled
    }

    pub fn is_injecting(&self) -> (r: bool)
        ensures
            r == self@.injecting,
    {
        self.injecting
    }

    pub fn set_injecting(&mut self, value: bool)
        requires
            old(self).wf(),
        ensures
            final(self).wf(),
            final(self)@ == (StateView { injecting: value, ..old(self)@ }),
    {
        self.injecting = value;
    }

    pub fn set_last_inject(&mut self, time: u64)
        requires
            old(self).wf(),
        ensures
            final(self).wf(),
            final(self)@ == (StateView { last_inject: Some(time), ..old(self)@ }),
    {
        self.last_inject = Some(time);
    }

    pub fn get_last_inject(&self) -> (r: Option<u64>)
        ensures
            r == self@.last_inject,
    {
        self.last_inject
    }

    /// Records that the release of `key` is to be swallowed.
    pub fn suppress_key(&mut self, key: Key)
        requires
            old(self).wf(),
        ensures
            final(self).wf(),
            final(self)@ == (StateView { suppressed: old(self)@.suppressed.insert(key), ..old(self)@ }),
    {
        if position(&self.suppressed_keys, key).is_some() {
            proof {
                assert(self.suppressed_keys@.to_set().insert(key) =~= self.suppressed_keys@.to_set());
            }
            return;
        }
        let ghost before = self.suppressed_keys@;
        self.suppressed_keys.push(key);
        proof {
            assert(self.suppressed_keys@ =~= before.push(key));
            assert forall|x: Key| #[trigger] self.suppressed_keys@.to_set().contains(x)
                == before.to_set().insert(key).contains(x) by {
                if before.contains(x) {
                    let j = choose|j: int| 0 <= j < before.len() && before[j] == x;
                    assert(self.suppressed_keys@[j] == x);
                }
                if x == key {
                    assert(self.suppressed_keys@[before.len() as int] == x);
                }
                if self.suppressed_keys@.contains(x) {
                    let j = choose|j: int| 0 <= j < self.suppressed_keys@.len() && self.suppressed_keys@[j] == x;
                    if j < before.len() {
                        assert(before[j] == x);
                    }
                }
            }
            assert(self.suppressed_keys@.to_set() =~= before.to_set().insert(key));
            assert forall|a: int, b: int|
                0 <= a < b < self.suppressed_keys@.len() implies
                self.suppressed_keys@[a] != self.suppressed_keys@[b] by {
                if b == before.len() {
                    assert(before[a] != key);
                }
            }
        }
    }

    /// Forgets `key` as suppressed; true iff it was.
    pub fn remove_suppressed_key(&mut self, key: Key) -> (r: bool)
        requires
            old(self).wf(),
        ensures
            final(self).wf(),
            r == old(self)@.suppressed.contains(key),
            final(self)@ == (StateView { suppressed: old(self)@.suppressed.remove(key), ..old(self)@ }),
    {
        match position(&self.suppressed_keys, key) {
            None => {
                proof {
                    assert(!self.suppressed_keys@.contains(key));
                    assert(self.suppressed_keys@.to_set().remove(key) =~= self.suppressed_keys@.to_set());
                }
                false
            },
            Some(i) => {
                let ghost before = self.suppressed_keys@;
                self.suppressed_keys.remove(i);
                proof {
                    assert(self.suppressed_keys@ =~= before.remove(i as int));
                    assert(before.contains(key));
                    assert forall|a: int, b: int|
                        0 <= a < b < self.suppressed_keys@.len() implies
                        self.suppressed_keys@[a] != self.suppressed_keys@[b] by {
                        let a2 = if a < i { a } else { a + 1 };
                        let b2 = if b < i { b } else { b + 1 };
                        assert(self.suppressed_keys@[a] == before[a2]);
                        assert(self.suppressed_keys@[b] == before[b2]);
                    }
                    assert forall|x: Key| #[trigger] self.suppressed_keys@.to_set().contains(x)
                        == before.to_set().remove(key).contains(x) by {
                        if before.contains(x) && x != key {
                            let j = choose|j: int| 0 <= j < before.len() && before[j] == x;
                            assert(j != i);
                            let j2 = if j < i { j } else { j - 1 };
                            assert(self.suppressed_keys@[j2] == x);
                        }
                        if self.suppressed_keys@.contains(x) {
                            let j = choose|j: int| 0 <= j < self.suppressed_keys@.len() && self.suppressed_keys@[j] == x;
                            let j2 = if j < i { j } else { j + 1 };
                            assert(before[j2] == x);
                            assert(j2 != i);
                        }
                    }
                    assert(self.suppressed_keys@.to_set() =~= before.to_set().remove(key));
                }
                true
            },
        }
    }

    /// Records a press or release of a meta, alt or control key.
    pub fn update_modifier(&mut self, key: Key, pressed: bool)
        requires
            old(self).wf(),
        ensures
            final(self).wf(),
            final(self)@ == (StateView { modifiers: old(self)@.modifiers.updated(key, pressed), ..old(self)@ }),
    {
        self.modifiers.update(key, pressed);
    }

    pub fn are_modifiers_active(&self) -> (r: bool)
        ensures
            r == self@.modifiers.spec_is_active(),
    {
        self.modifiers.is_active()
    }

    pub fn get_last_char(&self) -> (r: Option<String>)
        ensures
            opt_text(r) == self@.last_char,
    {
        match &self.last_char {
            Some(s) => Some(s.clone()),
            None => None,
        }
    }

    pub fn set_last_char(&mut self, ch: Option<String>)
        requires
            old(self).wf(),
        ensures
            final(self).wf(),
            final(self)@ == (StateView { last_char: opt_text(ch), ..old(self)@ }),
    {
        self.last_char = ch;
    }
}

} // verus!
