use vstd::prelude::*;

use crate::text::chars_of;

verus! {

broadcast use vstd::string::group_string_axioms;

/// A line without the carriage return that ended it, if any.
pub open spec fn drop_cr(line: Seq<char>) -> Seq<char> {
    if line.len() > 0 && line.last() == '\r' {
        line.drop_last()
    } else {
        line
    }
}

/// Scans `s` from the start: the lines already ended by a newline, and the
/// text after the last newline.
pub open spec fn newline_scan(s: Seq<char>) -> (Seq<Seq<char>>, Seq<char>)
    decreases s.len(),
{
    if s.len() == 0 {
        (Seq::empty(), Seq::empty())
    } else {
        let (done, cur) = newline_scan(s.drop_last());
        if s.last() == '\n' {
            (done.push(drop_cr(cur)), Seq::empty())
        } else {
            (done, cur.push(s.last()))
        }
    }
}

/// The lines of a text: cut at each newline, a carriage return just before
/// a newline dropped; the last line need not end with a newline, and an
/// empty text has no lines.
pub open spec fn text_lines(s: Seq<char>) -> Seq<Seq<char>> {
    let (done, cur) = newline_scan(s);
    if cur.len() == 0 {
        done
    } else {
        done.push(cur)
    }
}

/// Cuts a text into its lines.
pub fn split_lines(s: &str) -> (r: Vec<String>)
    ensures
        r@.map_values(|l: String| l@) == text_lines(s@),
{
    let cs = chars_of(s);
    let mut done: Vec<String> = Vec::new();
    let mut start: usize = 0;
    let mut i: usize = 0;
    while i < cs.len()
        invariant
            start <= i <= cs@.len(),
            cs@ == s@,
            (done@.map_values(|l: String| l@), cs@.subrange(start as int, i as int))
                == newline_scan(cs@.take(i as int)),
        decreases cs@.len() - i,
    {
        assert(cs@.take(i + 1).drop_last() == cs@.take(i as int));
        assert(cs@.subrange(start as int, i + 1) == cs@.subrange(start as int, i as int).push(
            cs@[i as int],
        ));
        if cs[i] == '\n' {
            let end = if i > start && cs[i - 1] == '\r' {
                i - 1
            } else {
                i
            };
            assert(cs@.subrange(start as int, end as int) == drop_cr(
                cs@.subrange(start as int, i as int),
            ));
            let line = s.substring_char(start, end).to_owned();
            let ghost before = done@;
            done.push(line);
            assert(done@.map_values(|l: String| l@) == before.map_values(|l: String| l@).push(
                line@,
            ));
            start = i + 1;
        }
        i += 1;
    }
    assert(cs@.take(i as int) == s@);
    if start < cs.len() {
        let line = s.substring_char(start, cs.len()).to_owned();
        let ghost before = done@;
        done.push(line);
        assert(done@.map_values(|l: String| l@) == before.map_values(|l: String| l@).push(line@));
    }
    done
}

} // verus!
