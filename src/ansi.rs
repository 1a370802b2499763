use vstd::prelude::*;

use crate::text::{chars_of, push_char};

verus! {

/// Where a scan of a line stands with respect to terminal escape sequences.
#[derive(Clone, Copy, Debug, PartialEq, Eq, Structural)]
pub enum EscapeState {
    /// Plain text: characters are kept.
    Text,
    /// Just after an escape character.
    Escape,
    /// Inside a control sequence (`ESC [` up to its final character).
    Control,
}

/// One character's effect on the scan: the next state, and whether the
/// character is kept.
pub open spec fn escape_step(state: EscapeState, c: char) -> (EscapeState, bool) {
    match state {
        EscapeState::Text => if c == '\x1b' {
            (EscapeState::Escape, false)
        } else {
            (EscapeState::Text, true)
        },
        EscapeState::Escape => if c == '[' {
            (EscapeState::Control, false)
        } else {
            (EscapeState::Text, false)
        },
        EscapeState::Control => if '\x40' <= c && c <= '\x7e' {
            (EscapeState::Text, false)
        } else {
            (EscapeState::Control, false)
        },
    }
}

/// The kept characters of `s` and the state after it, scanning from the
/// start in the text state.
pub open spec fn escape_scan(s: Seq<char>) -> (Seq<char>, EscapeState)
    decreases s.len(),
{
    if s.len() == 0 {
        (Seq::empty(), EscapeState::Text)
    } else {
        let (kept, state) = escape_scan(s.drop_last());
        let (next, keep) = escape_step(state, s.last());
        (if keep { kept.push(s.last()) } else { kept }, next)
    }
}

/// `s` without its escape sequences: an escape character and the character
/// after it, or a whole control sequence `ESC [ ... final`, are removed.
pub open spec fn strip_escapes(s: Seq<char>) -> Seq<char> {
    escape_scan(s).0
}

fn step_exec(state: EscapeState, c: char) -> (r: (EscapeState, bool))
    ensures
        r == escape_step(state, c),
{
    match state {
        EscapeState::Text => if c == '\x1b' {
            (EscapeState::Escape, false)
        } else {
            (EscapeState::Text, true)
        },
        EscapeState::Escape => if c == '[' {
            (EscapeState::Control, false)
        } else {
            (EscapeState::Text, false)
        },
        EscapeState::Control => if '\x40' <= c && c <= '\x7e' {
            (EscapeState::Text, false)
        } else {
            (EscapeState::Control, false)
        },
    }
}

/// Removes the terminal escape sequences (colours and the like) of a line.
pub fn strip_ansi(s: &str) -> (r: String)
    ensures
        r@ == strip_escapes(s@),
{
    let cs = chars_of(s);
    let mut out = String::new();
    let mut state = EscapeState::Text;
    let mut i: usize = 0;
    while i < cs.len()
        invariant
            i <= cs@.len(),
            cs@ == s@,
            (out@, state) == escape_scan(cs@.take(i as int)),
        decreases cs@.len() - i,
    {
        let c = cs[i];
        assert(cs@.take(i + 1).drop_last() == cs@.take(i as int));
        let (next, keep) = step_exec(state, c);
        if keep {
            push_char(&mut out, c);
        }
        state = next;
        i += 1;
    }
    assert(cs@.take(i as int) == s@);
    out
}

} // verus!
