use vstd::prelude::*;

use crate::text::chars_of;

verus! {

broadcast use vstd::string::group_string_axioms;

/// Scans `s` from the start: the pieces already ended by `sep`, and the text
/// after the last `sep`.
pub open spec fn sep_scan(s: Seq<char>, sep: char) -> (Seq<Seq<char>>, Seq<char>)
    decreases s.len(),
{
    if s.len() == 0 {
        (Seq::empty(), Seq::empty())
    } else {
        let (done, cur) = sep_scan(s.drop_last(), sep);
        if s.last() == sep {
            (done.push(cur), Seq::empty())
        } else {
            (done, cur.push(s.last()))
        }
    }
}

/// The pieces of `s` between occurrences of `sep`; `n` occurrences give
/// `n + 1` pieces, empty ones included.
pub open spec fn split_on(s: Seq<char>, sep: char) -> Seq<Seq<char>> {
    let (done, cur) = sep_scan(s, sep);
    done.push(cur)
}

/// Cuts `s` into the pieces between occurrences of `sep`.
pub fn split_char(s: &str, sep: char) -> (r: Vec<String>)
    ensures
        r@.map_values(|p: String| p@) == split_on(s@, sep),
{
    let cs = chars_of(s);
    let mut done: Vec<String> = Vec::new();
    let mut start: usize = 0;
    let mut i: usize = 0;
    while i < cs.len()
        invariant
            start <= i <= cs@.len(),
            cs@ == s@,
            (done@.map_values(|p: String| p@), cs@.subrange(start as int, i as int)) == sep_scan(
                cs@.take(i as int),
                sep,
            ),
        decreases cs@.len() - i,
    {
        assert(cs@.take(i + 1).drop_last() == cs@.take(i as int));
        assert(cs@.subrange(start as int, i + 1) == cs@.subrange(start as int, i as int).push(
            cs@[i as int],
        ));
        if cs[i] == sep {
            let piece = s.substring_char(start, i).to_owned();
            let ghost before = done@;
            done.push(piece);
            assert(done@.map_values(|p: String| p@) == before.map_values(|p: String| p@).push(
                piece@,
            ));
            start = i + 1;
        }
        i += 1;
    }
    assert(cs@.take(i as int) == s@);
    let piece = s.substring_char(start, cs.len()).to_owned();
    let ghost before = done@;
    done.push(piece);
    assert(done@.map_values(|p: String| p@) == before.map_values(|p: String| p@).push(piece@));
    done
}

} // verus!
