use vstd::prelude::*;

use crate::ansi::{strip_ansi, strip_escapes};
use crate::delimiter::Delimiter;
use crate::field::{any_covers, any_takes, FieldRange};

verus! {

/// A selectable unit of output: the text shown, and the text matched against.
#[derive(Debug)]
pub enum Item {
    /// A line of command output, cut into fields.
    Parsed { display: String, matching: String },
    /// A line shown and matched as it is, such as a line of an error report.
    Plain(String),
}

/// The fields taken by any of the ranges, among the first `k`, joined in order.
pub open spec fn picked(fields: Seq<Seq<char>>, ranges: Seq<FieldRange>, k: int) -> Seq<char>
    decreases k,
{
    if k <= 0 {
        Seq::empty()
    } else {
        picked(fields, ranges, k - 1) + if any_takes(ranges, k - 1, fields.len() as int) {
            fields[k - 1]
        } else {
            Seq::empty()
        }
    }
}

/// The text a list of ranges gives for a line: the whole line when the list
/// is empty, else the fields it takes, joined in their order in the line.
pub open spec fn select_fields(
    text: Seq<char>,
    fields: Seq<Seq<char>>,
    ranges: Seq<FieldRange>,
) -> Seq<char> {
    if ranges.len() == 0 {
        text
    } else {
        picked(fields, ranges, fields.len() as int)
    }
}

/// The text of a line once escape sequences are dealt with: stripped when
/// they are interpreted, kept as they are otherwise.
pub open spec fn line_text(line: Seq<char>, use_ansi: bool) -> Seq<char> {
    if use_ansi {
        strip_escapes(line)
    } else {
        line
    }
}

impl View for Item {
    /// The shown text and the matched text.
    type V = (Seq<char>, Seq<char>);

    open spec fn view(&self) -> (Seq<char>, Seq<char>) {
        (self.display_view(), self.match_view())
    }
}

impl Item {
    /// The text shown to the user.
    pub open spec fn display_view(&self) -> Seq<char> {
        match self {
            Item::Parsed { display, .. } => display@,
            Item::Plain(t) => t@,
        }
    }

    /// The text matched against a query.
    pub open spec fn match_view(&self) -> Seq<char> {
        match self {
            Item::Parsed { matching, .. } => matching@,
            Item::Plain(t) => t@,
        }
    }

    /// The text shown to the user.
    pub fn display_text(&self) -> (r: &str)
        ensures
            r@ == self.display_view(),
    {
        match self {
            Item::Parsed { display, .. } => display.as_str(),
            Item::Plain(t) => t.as_str(),
        }
    }

    /// The text matched against a query.
    pub fn match_text(&self) -> (r: &str)
        ensures
            r@ == self.match_view(),
    {
        match self {
            Item::Parsed { matching, .. } => matching.as_str(),
            Item::Plain(t) => t.as_str(),
        }
    }

    /// An item shown and matched as the line is.
    pub fn plain(line: String) -> (r: Item)
        ensures
            r.display_view() == line@,
            r.match_view() == line@,
    {
        Item::Plain(line)
    }

    /// Turns a line of output into an item. With `use_ansi`, escape sequences
    /// are stripped first. The line is cut into fields by `delimiter`;
    /// `transform_fields` picks the fields shown and `matching_fields` those
    /// matched, an empty list standing for the whole line.
    pub fn new(
        line: &str,
        use_ansi: bool,
        transform_fields: &Vec<FieldRange>,
        matching_fields: &Vec<FieldRange>,
        delimiter: &Delimiter,
    ) -> (r: Item)
        ensures
            r.display_view() == select_fields(
                line_text(line@, use_ansi),
                delimiter.fields(line_text(line@, use_ansi)),
                transform_fields@,
            ),
            r.match_view() == select_fields(
                line_text(line@, use_ansi),
                delimiter.fields(line_text(line@, use_ansi)),
                matching_fields@,
            ),
    {
        let text = if use_ansi {
            strip_ansi(line)
        } else {
            line.to_owned()
        };
        if transform_fields.len() == 0 && matching_fields.len() == 0 {
            let display = text.clone();
            return Item::Parsed { display, matching: text };
        }
        let fields = delimiter.split(text.as_str());
        let display = if transform_fields.len() == 0 {
            text.clone()
        } else {
            join_fields(&fields, transform_fields)
        };
        let matching = if matching_fields.len() == 0 {
            text
        } else {
            join_fields(&fields, matching_fields)
        };
        Item::Parsed { display, matching }
    }
}

/// The fields taken by any of the ranges, joined in order.
fn join_fields(fields: &Vec<String>, ranges: &Vec<FieldRange>) -> (r: String)
    ensures
        r@ == picked(fields@.map_values(|f: String| f@), ranges@, fields@.len() as int),
{
    let ghost views = fields@.map_values(|f: String| f@);
    let mut out = String::new();
    let mut k: usize = 0;
    while k < fields.len()
        invariant
            k <= fields@.len(),
            views == fields@.map_values(|f: String| f@),
            out@ == picked(views, ranges@, k as int),
        decreases fields@.len() - k,
    {
        if any_covers(ranges, k, fields.len()) {
            out.append(fields[k].as_str());
        }
        k += 1;
    }
    out
}

} // verus!
