use vstd::prelude::*;
use vstd::string::StringExecFns;
use crate::config::Layout;

verus! {

/// What `str::to_uppercase` makes of a string.
pub uninterp spec fn upper_of(s: Seq<char>) -> Seq<char>;

/// Relies on `str::to_uppercase`: the result depends on the characters alone.
#[verifier::external_body]
fn uppercase(s: &String) -> (r: String)
    ensures
        r@ == upper_of(s@),
{
    s.to_uppercase()
}

/// The text an optional string holds.
pub open spec fn opt_text(o: Option<String>) -> Option<Seq<char>> {
    match o {
        Some(s) => Some(s@),
        None => None,
    }
}

/// The key under which `mappings` is searched: shifted symbols in upper case.
pub open spec fn lookup_key(symbol: Seq<char>, shifted: bool) -> Seq<char> {
    if shifted {
        upper_of(symbol)
    } else {
        symbol
    }
}

/// What a keystroke composes to, as the text to type and the new lookback.
#[derive(Debug, PartialEq, Eq)]
pub enum Composition {
    /// A special rule's text, typed with no backspace: the keystroke left
    /// nothing visible to remove.
    SpecialRule(String),
    /// A mapped text that replaces the echoed Latin character.
    DirectMapping(String),
    /// A dependent vowel sign (first) that joins the preceding consonant into
    /// the grapheme (second); it replaces the echoed Latin character.
    FusedMapping(String, String),
}

/// The mathematical form of a `Composition`.
pub enum ComposedView {
    SpecialRule(Seq<char>),
    DirectMapping(Seq<char>),
    FusedMapping(Seq<char>, Seq<char>),
}

impl ComposedView {
    /// The text to type.
    pub open spec fn text(self) -> Seq<char> {
        match self {
            ComposedView::SpecialRule(t) => t,
            ComposedView::DirectMapping(t) => t,
            ComposedView::FusedMapping(t, _) => t,
        }
    }

    /// The lookback after typing it.
    pub open spec fn lookback(self) -> Seq<char> {
        match self {
            ComposedView::SpecialRule(t) => t,
            ComposedView::DirectMapping(t) => t,
            ComposedView::FusedMapping(_, g) => g,
        }
    }

    /// Whether the echoed character is removed first.
    pub open spec fn backspace(self) -> bool {
        !(self is SpecialRule)
    }
}

impl View for Composition {
    type V = ComposedView;

    open spec fn view(&self) -> ComposedView {
        match self {
            Composition::SpecialRule(t) => ComposedView::SpecialRule(t@),
            Composition::DirectMapping(t) => ComposedView::DirectMapping(t@),
            Composition::FusedMapping(t, g) => ComposedView::FusedMapping(t@, g@),
        }
    }
}

impl Composition {
    /// The text to type.
    pub fn text(&self) -> (r: &String)
        ensures
            r@ == self@.text(),
    {
        match self {
            Composition::SpecialRule(t) => t,
            Composition::DirectMapping(t) => t,
            Composition::FusedMapping(t, _) => t,
        }
    }

    /// The lookback after typing the text.
    pub fn lookback(&self) -> (r: String)
        ensures
            r@ == self@.lookback(),
    {
        match self {
            Composition::SpecialRule(t) => t.clone(),
            Composition::DirectMapping(t) => t.clone(),
            Composition::FusedMapping(_, g) => g.clone(),
        }
    }

    /// Whether one backspace must precede the text.
    pub fn needs_backspace(&self) -> (r: bool)
        ensures
            r == self@.backspace(),
    {
        match self {
            Composition::SpecialRule(_) => false,
            _ => true,
        }
    }
}

/// The vowel sign that `candidate` becomes after `lookback`: there is one only
/// when the lookback is a consonant and the layout has a sign for `candidate`.
pub open spec fn matra_after(layout: &Layout, lookback: Option<Seq<char>>, candidate: Seq<char>) -> Option<Seq<char>> {
    match lookback {
        Some(l) => if layout.is_consonant(l) {
            layout.matra(candidate)
        } else {
            None
        },
        None => None,
    }
}

/// What `symbol` composes to, in order of priority: a special rule; the
/// vowel sign fused onto a consonant lookback; the mapped text; nothing.
pub open spec fn compose(layout: &Layout, symbol: Seq<char>, shifted: bool, lookback: Option<Seq<char>>) -> Option<ComposedView> {
    if let Some(rule) = layout.special_rule(symbol) {
        Some(ComposedView::SpecialRule(rule))
    } else if let Some(candidate) = layout.mapping(lookup_key(symbol, shifted)) {
        if let Some(sign) = matra_after(layout, lookback, candidate) {
            Some(ComposedView::FusedMapping(sign, lookback->0 + sign))
        } else {
            Some(ComposedView::DirectMapping(candidate))
        }
    } else {
        None
    }
}

/// The composition engine.
pub struct TypingEngine;

impl TypingEngine {
    /// Composes the keystroke `key_id` (shifted or not) after the lookback
    /// `last_char`; `None` when the layout has nothing for it.
    pub fn process_key(key_id: &String, shifted: bool, last_char: &Option<String>, config: &Layout) -> (r: Option<Composition>)
        ensures
            r is None <==> compose(config, key_id@, shifted, opt_text(*last_char)) is None,
            r matches Some(c) ==> Some(c@) == compose(config, key_id@, shifted, opt_text(*last_char)),
    {
        if let Some(rule_char) = Self::get_special_rule(key_id, config) {
            return Some(Composition::SpecialRule(rule_char.clone()));
        }
        let lookup_key = if shifted {
            uppercase(key_id)
        } else {
            key_id.clone()
        };
        if let Some(output_char) = config.get_mapping(&lookup_key) {
            if let Some(last) = last_char {
                if let Some(matra) = Self::try_apply_matra(last, output_char, config) {
                    let grapheme = last.clone().concat(matra.as_str());
                    return Some(Composition::FusedMapping(matra.clone(), grapheme));
                }
            }
            return Some(Composition::DirectMapping(output_char.clone()));
        }
        None
    }

    /// The vowel sign that `current_char` becomes after `last_char`, if any.
    pub fn try_apply_matra<'a>(last_char: &String, current_char: &String, config: &'a Layout) -> (r: Option<&'a String>)
        ensures
            r is None <==> matra_after(config, Some(last_char@), current_char@) is None,
            r matches Some(m) ==> matra_after(config, Some(last_char@), current_char@) == Some(m@),
    {
        if config.contains_consonant(last_char) {
            return config.get_matra(current_char);
        }
        None
    }

    /// The special rule of `key`, if any.
    pub fn get_special_rule<'a>(key: &String, config: &'a Layout) -> (r: Option<&'a String>)
        ensures
            r is None <==> config.special_rule(key@) is None,
            r matches Some(v) ==> config.special_rule(key@) == Some(v@),
    {
        config.get_special_rule(key)
    }
}

} // verus!
