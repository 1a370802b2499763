use vstd::prelude::*;

use crate::delimiter::{regex_finds, Pattern};
use crate::item::Item;

verus! {

/// Decides which items start out selected: the first `first_n` items, those
/// whose shown text is one of a preset list of strings, and those whose shown
/// text matches a regular expression. An unset rule selects nothing.
pub struct DefaultSkimSelector {
    first_n: usize,
    regex: Option<Pattern>,
    preset: Option<Vec<String>>,
}

/// Whether `text` is one of the strings of `preset`.
pub open spec fn in_preset(preset: Seq<String>, text: Seq<char>) -> bool {
    exists|i: int| 0 <= i < preset.len() && (#[trigger] preset[i])@ == text
}

impl DefaultSkimSelector {
    /// How many items, counted from the first, are selected whatever they hold.
    pub closed spec fn first_n_spec(&self) -> nat {
        self.first_n as nat
    }

    /// Whether the preset rule selects an item with the shown text `text`.
    pub closed spec fn preset_selects(&self, text: Seq<char>) -> bool {
        match self.preset {
            Some(p) => in_preset(p@, text),
            None => false,
        }
    }

    /// Whether the regular-expression rule selects an item with the shown
    /// text `text`.
    pub closed spec fn regex_selects(&self, text: Seq<char>) -> bool {
        match self.regex {
            Some(p) => regex_finds(p.source(), text),
            None => false,
        }
    }

    /// Whether the item at position `index` of the stream is selected.
    pub open spec fn selects(&self, index: int, text: Seq<char>) -> bool {
        ||| index < self.first_n_spec()
        ||| self.preset_selects(text)
        ||| self.regex_selects(text)
    }

    /// A selector that selects nothing.
    pub fn new() -> (r: Self)
        ensures
            r.first_n_spec() == 0,
            forall|t: Seq<char>| !r.preset_selects(t) && !r.regex_selects(t),
    {
        DefaultSkimSelector { first_n: 0, regex: None, preset: None }
    }

    /// Selects the first `n` items as well.
    pub fn first_n(self, n: usize) -> (r: Self)
        ensures
            r.first_n_spec() == n,
            forall|t: Seq<char>| r.preset_selects(t) == self.preset_selects(t),
            forall|t: Seq<char>| r.regex_selects(t) == self.regex_selects(t),
    {
        DefaultSkimSelector { first_n: n, ..self }
    }

    /// Selects, in place of any earlier list, the items whose shown text is
    /// one of `preset`.
    pub fn preset(self, preset: Vec<String>) -> (r: Self)
        ensures
            r.first_n_spec() == self.first_n_spec(),
            forall|t: Seq<char>| r.preset_selects(t) == in_preset(preset@, t),
            forall|t: Seq<char>| r.regex_selects(t) == self.regex_selects(t),
    {
        DefaultSkimSelector { preset: Some(preset), ..self }
    }

    /// Selects, in place of any earlier expression, the items whose shown
    /// text `pattern` matches.
    pub fn regex(self, pattern: Pattern) -> (r: Self)
        ensures
            r.first_n_spec() == self.first_n_spec(),
            forall|t: Seq<char>| r.preset_selects(t) == self.preset_selects(t),
            forall|t: Seq<char>| r.regex_selects(t) == regex_finds(pattern.source(), t),
    {
        DefaultSkimSelector { regex: Some(pattern), ..self }
    }

    /// Whether the item at position `index` of the stream starts out selected.
    pub fn should_select(&self, index: usize, item: &Item) -> (r: bool)
        ensures
            r == self.selects(index as int, item.display_view()),
    {
        if self.first_n > index {
            return true;
        }
        let text = item.display_text();
        if let Some(preset) = &self.preset {
            if contains_text(preset, text) {
                return true;
            }
        }
        if let Some(re) = &self.regex {
            if re.is_match(text) {
                return true;
            }
        }
        false
    }
}

/// Whether `text` is one of the strings of `preset`.
fn contains_text(preset: &Vec<String>, text: &str) -> (r: bool)
    ensures
        r == in_preset(preset@, text@),
{
    let target = text.to_owned();
    let mut i: usize = 0;
    while i < preset.len()
        invariant
            i <= preset@.len(),
            target@ == text@,
            forall|j: int| 0 <= j < i ==> (#[trigger] preset@[j])@ != text@,
        decreases preset@.len() - i,
    {
        if preset[i] == target {
            return true;
        }
        i += 1;
    }
    false
}

/// With neither a preset list nor an expression set, an item is selected
/// exactly when its position is below `first_n`, whatever it holds.
pub proof fn lemma_first_n_ignores_content(
    s: DefaultSkimSelector,
    index: int,
    text: Seq<char>,
    other: Seq<char>,
)
    requires
        forall|t: Seq<char>| !s.preset_selects(t) && !s.regex_selects(t),
    ensures
        s.selects(index, text) == (index < s.first_n_spec()),
        s.selects(index, text) == s.selects(index, other),
{
}

impl Default for DefaultSkimSelector {
    fn default() -> (r: Self)
        ensures
            r.first_n_spec() == 0,
            forall|t: Seq<char>| !r.preset_selects(t) && !r.regex_selects(t),
    {
        DefaultSkimSelector::new()
    }
}

} // verus!
