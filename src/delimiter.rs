use vstd::prelude::*;

use crate::text::{chars_of, push_char};

verus! {

#[verifier::external_type_specification]
#[verifier::external_body]
pub struct ExRegex(regex::Regex);

#[verifier::external_type_specification]
#[verifier::external_body]
pub struct ExRegexError(regex::Error);

/// Whether `regex::Regex::new` accepts the pattern.
pub uninterp spec fn regex_accepts(pattern: Seq<char>) -> bool;

/// The pieces of `text` between the matches of the pattern, as
/// `regex::Regex::split` gives them.
pub uninterp spec fn regex_split(pattern: Seq<char>, text: Seq<char>) -> Seq<Seq<char>>;

/// Whether the pattern matches somewhere in `text`, as
/// `regex::Regex::is_match` says.
pub uninterp spec fn regex_finds(pattern: Seq<char>, text: Seq<char>) -> bool;

/// Relies on `regex::Regex::new`: it compiles the pattern, or says why not.
#[verifier::external_body]
fn compile_regex(pattern: &str) -> (r: Result<regex::Regex, regex::Error>)
    ensures
        r is Ok <==> regex_accepts(pattern@),
{
    regex::Regex::new(pattern)
}

/// Why a pattern was refused.
#[derive(Clone, Copy, Debug, PartialEq, Eq, Structural)]
pub enum PatternError {
    /// The pattern is not a valid regular expression, or is too large.
    Invalid,
}

/// A compiled regular expression, together with the text it was compiled
/// from. `new` is the only way to make one, so the expression is always the
/// one compiled from `source`.
pub struct Pattern {
    re: regex::Regex,
    source: Ghost<Seq<char>>,
}

impl Pattern {
    /// The text the expression was compiled from.
    pub closed spec fn source(&self) -> Seq<char> {
        self.source@
    }

    /// Compiles a regular expression.
    pub fn new(pattern: &str) -> (r: Result<Pattern, PatternError>)
        ensures
            r is Ok <==> regex_accepts(pattern@),
            r matches Ok(p) ==> p.source() == pattern@,
            r matches Err(e) ==> e == PatternError::Invalid,
    {
        match compile_regex(pattern) {
            Ok(re) => Ok(Pattern { re, source: Ghost(pattern@) }),
            Err(_) => Err(PatternError::Invalid),
        }
    }

    /// Whether the expression matches somewhere in `text`.
    pub fn is_match(&self, text: &str) -> (r: bool)
        ensures
            r == regex_finds(self.source(), text@),
    {
        regex_is_match(self, text)
    }
}

/// Relies on `regex::Regex::is_match`: whether the expression the pattern was
/// compiled from matches somewhere in the text.
#[verifier::external_body]
fn regex_is_match(p: &Pattern, text: &str) -> (r: bool)
    ensures
        r == regex_finds(p.source(), text@),
{
    p.re.is_match(text)
}

/// Relies on `regex::Regex::split`: the pieces of the text between matches of
/// the expression the pattern was compiled from, in order.
#[verifier::external_body]
fn regex_split_pieces(p: &Pattern, text: &str) -> (r: Vec<String>)
    ensures
        r@.map_values(|piece: String| piece@) == regex_split(p.source(), text@),
{
    p.re.split(text).map(|piece| piece.to_string()).collect()
}

/// Whether a character is a blank: tab, newline or space.
pub open spec fn is_blank(c: char) -> bool {
    c == '\t' || c == '\n' || c == ' '
}

/// Scans `s` from the start: the pieces already closed, the piece being
/// built, and whether the last character was a blank.
pub open spec fn blank_scan(s: Seq<char>) -> (Seq<Seq<char>>, Seq<char>, bool)
    decreases s.len(),
{
    if s.len() == 0 {
        (Seq::empty(), Seq::empty(), false)
    } else {
        let (done, cur, in_run) = blank_scan(s.drop_last());
        let c = s.last();
        if is_blank(c) {
            if in_run {
                (done, cur, true)
            } else {
                (done.push(cur), Seq::empty(), true)
            }
        } else {
            (done, cur.push(c), false)
        }
    }
}

/// The pieces of `s` between maximal runs of blanks. A run at the start or
/// the end gives an empty piece there; an empty `s` gives one empty piece.
pub open spec fn blank_split(s: Seq<char>) -> Seq<Seq<char>> {
    let (done, cur, _) = blank_scan(s);
    done.push(cur)
}

/// Cuts `s` into pieces between maximal runs of blanks.
pub fn split_blank_runs(s: &str) -> (r: Vec<String>)
    ensures
        r@.map_values(|piece: String| piece@) == blank_split(s@),
{
    let cs = chars_of(s);
    let mut done: Vec<String> = Vec::new();
    let mut cur = String::new();
    let mut in_run = false;
    let mut i: usize = 0;
    while i < cs.len()
        invariant
            i <= cs@.len(),
            cs@ == s@,
            (done@.map_values(|piece: String| piece@), cur@, in_run) == blank_scan(
                cs@.take(i as int),
            ),
        decreases cs@.len() - i,
    {
        let c = cs[i];
        assert(cs@.take(i + 1).drop_last() == cs@.take(i as int));
        let ghost before = done@;
        if c == '\t' || c == '\n' || c == ' ' {
            if !in_run {
                let piece = cur;
                cur = String::new();
                done.push(piece);
                assert(done@.map_values(|piece: String| piece@) == before.map_values(
                    |piece: String| piece@,
                ).push(piece@));
            }
            in_run = true;
        } else {
            push_char(&mut cur, c);
            in_run = false;
        }
        i += 1;
    }
    assert(cs@.take(i as int) == s@);
    let ghost before = done@;
    done.push(cur);
    assert(done@.map_values(|piece: String| piece@) == before.map_values(|piece: String| piece@).push(
        cur@,
    ));
    done
}

/// How a line is cut into fields.
pub enum Delimiter {
    /// Fields are separated by runs of tabs, newlines and spaces.
    Blank,
    /// Fields are separated by the matches of a regular expression.
    Regex(Pattern),
}

impl Delimiter {
    /// The fields of `text`.
    pub open spec fn fields(&self, text: Seq<char>) -> Seq<Seq<char>> {
        match self {
            Delimiter::Blank => blank_split(text),
            Delimiter::Regex(p) => regex_split(p.source(), text),
        }
    }

    /// Cuts `text` into fields.
    pub fn split(&self, text: &str) -> (r: Vec<String>)
        ensures
            r@.map_values(|piece: String| piece@) == self.fields(text@),
    {
        match self {
            Delimiter::Blank => split_blank_runs(text),
            Delimiter::Regex(p) => regex_split_pieces(p, text),
        }
    }
}

} // verus!
