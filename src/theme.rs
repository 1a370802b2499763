use vstd::prelude::*;
use vstd::utf8::encode_utf8;

use crate::number::{decimal_u8, hex_pair, parse_decimal_u8, parse_hex_pair};
use crate::split::{split_char, split_on};

verus! {

/// A terminal colour.
#[derive(Clone, Copy, Debug, PartialEq, Eq, Structural)]
pub enum Color {
    /// The terminal's own colour.
    Default,
    /// One of the 256 indexed colours.
    AnsiValue(u8),
    /// A colour given by its red, green and blue parts.
    Rgb(u8, u8, u8),
}

/// A set of text effects, one bit each.
#[derive(Clone, Copy, Debug, PartialEq, Eq, Structural)]
pub struct Effect {
    pub bits: u8,
}

impl Effect {
    /// No effect.
    pub fn empty() -> (r: Effect)
        ensures
            r.bits == 0,
    {
        Effect { bits: 0 }
    }

    /// Bold text.
    pub fn bold() -> (r: Effect)
        ensures
            r.bits == 1,
    {
        Effect { bits: 1 }
    }

    /// Dim text.
    pub fn dim() -> (r: Effect)
        ensures
            r.bits == 2,
    {
        Effect { bits: 2 }
    }
}

/// How a piece of text is drawn: colours and effects.
#[derive(Clone, Copy, Debug, PartialEq, Eq, Structural)]
pub struct Attr {
    pub fg: Color,
    pub bg: Color,
    pub effect: Effect,
}

/// The colours of the user interface.
#[derive(Clone, Copy, Debug, PartialEq, Eq, Structural)]
pub struct ColorTheme {
    pub fg: Color,
    pub bg: Color,
    pub normal_effect: Effect,
    pub matched: Color,
    pub matched_bg: Color,
    pub matched_effect: Effect,
    pub current: Color,
    pub current_bg: Color,
    pub current_effect: Effect,
    pub current_match: Color,
    pub current_match_bg: Color,
    pub current_match_effect: Effect,
    pub query_fg: Color,
    pub query_bg: Color,
    pub query_effect: Effect,
    pub spinner: Color,
    pub info: Color,
    pub prompt: Color,
    pub cursor: Color,
    pub selected: Color,
    pub header: Color,
    pub border: Color,
}

/// The theme with every colour the terminal's own and no effects.
pub open spec fn empty_theme() -> ColorTheme {
    ColorTheme {
        fg: Color::Default,
        bg: Color::Default,
        normal_effect: Effect { bits: 0 },
        matched: Color::Default,
        matched_bg: Color::Default,
        matched_effect: Effect { bits: 0 },
        current: Color::Default,
        current_bg: Color::Default,
        current_effect: Effect { bits: 0 },
        current_match: Color::Default,
        current_match_bg: Color::Default,
        current_match_effect: Effect { bits: 0 },
        query_fg: Color::Default,
        query_bg: Color::Default,
        query_effect: Effect { bits: 0 },
        spinner: Color::Default,
        info: Color::Default,
        prompt: Color::Default,
        cursor: Color::Default,
        selected: Color::Default,
        header: Color::Default,
        border: Color::Default,
    }
}

/// The default theme: dim normal text, cyan matches, bold current line,
/// yellow information and a green cursor.
pub open spec fn default_theme() -> ColorTheme {
    ColorTheme {
        normal_effect: Effect { bits: 2 },
        matched: Color::AnsiValue(6),
        current_effect: Effect { bits: 1 },
        current_match: Color::AnsiValue(6),
        info: Color::AnsiValue(3),
        cursor: Color::AnsiValue(2),
        ..empty_theme()
    }
}

/// The colour a value names: `#rrggbb` (any value seven bytes long, each
/// pair of bytes read as hexadecimal, 255 where that fails), else a decimal
/// colour index, else the terminal's own colour.
pub open spec fn value_color(v: Seq<char>) -> Color {
    let b = encode_utf8(v);
    if b.len() == 7 {
        Color::Rgb(hex_pair(b[1], b[2]), hex_pair(b[3], b[4]), hex_pair(b[5], b[6]))
    } else {
        match decimal_u8(v) {
            Some(n) => Color::AnsiValue(n),
            None => Color::Default,
        }
    }
}

/// The theme with the colour called `name` set to `c`; an unknown name
/// changes nothing.
pub open spec fn with_color(t: ColorTheme, name: Seq<char>, c: Color) -> ColorTheme {
    if name == "fg"@ {
        ColorTheme { fg: c, ..t }
    } else if name == "bg"@ {
        ColorTheme { bg: c, ..t }
    } else if name == "matched"@ || name == "hl"@ {
        ColorTheme { matched: c, ..t }
    } else if name == "matched_bg"@ {
        ColorTheme { matched_bg: c, ..t }
    } else if name == "current"@ || name == "fg+"@ {
        ColorTheme { current: c, ..t }
    } else if name == "current_bg"@ || name == "bg+"@ {
        ColorTheme { current_bg: c, ..t }
    } else if name == "current_match"@ || name == "hl+"@ {
        ColorTheme { current_match: c, ..t }
    } else if name == "current_match_bg"@ {
        ColorTheme { current_match_bg: c, ..t }
    } else if name == "query"@ {
        ColorTheme { query_fg: c, ..t }
    } else if name == "query_bg"@ {
        ColorTheme { query_bg: c, ..t }
    } else if name == "spinner"@ {
        ColorTheme { spinner: c, ..t }
    } else if name == "info"@ {
        ColorTheme { info: c, ..t }
    } else if name == "prompt"@ {
        ColorTheme { prompt: c, ..t }
    } else if name == "cursor"@ || name == "pointer"@ {
        ColorTheme { cursor: c, ..t }
    } else if name == "selected"@ || name == "marker"@ {
        ColorTheme { selected: c, ..t }
    } else if name == "header"@ {
        ColorTheme { header: c, ..t }
    } else if name == "border"@ {
        ColorTheme { border: c, ..t }
    } else {
        t
    }
}

/// The theme after one `name:value` pair; a pair without `:` changes nothing.
pub open spec fn apply_pair(t: ColorTheme, pair: Seq<char>) -> ColorTheme {
    let parts = split_on(pair, ':');
    if parts.len() >= 2 {
        with_color(t, parts[0], value_color(parts[1]))
    } else {
        t
    }
}

/// The theme after the pairs, applied in order.
pub open spec fn apply_pairs(t: ColorTheme, pairs: Seq<Seq<char>>) -> ColorTheme
    decreases pairs.len(),
{
    if pairs.len() == 0 {
        t
    } else {
        apply_pair(apply_pairs(t, pairs.drop_last()), pairs.last())
    }
}

/// The theme a colour option describes: the default theme with each of its
/// comma-separated `name:value` pairs applied in order.
pub open spec fn theme_of(color: Seq<char>) -> ColorTheme {
    apply_pairs(default_theme(), split_on(color, ','))
}

fn is_named(name: &String, lit: &str) -> (r: bool)
    ensures
        r == (name@ == lit@),
{
    *name == String::from_str(lit)
}

fn parse_color(value: &String) -> (r: Color)
    ensures
        r == value_color(value@),
{
    let v = value.as_str();
    if v.len() == 7 {
        let b = v.as_bytes();
        Color::Rgb(
            parse_hex_pair(b[1], b[2]),
            parse_hex_pair(b[3], b[4]),
            parse_hex_pair(b[5], b[6]),
        )
    } else {
        match parse_decimal_u8(v) {
            Some(n) => Color::AnsiValue(n),
            None => Color::Default,
        }
    }
}

fn set_color(theme: &mut ColorTheme, name: &String, c: Color)
    ensures
        *final(theme) == with_color(*old(theme), name@, c),
{
    if is_named(name, "fg") {
        theme.fg = c;
    } else if is_named(name, "bg") {
        theme.bg = c;
    } else if is_named(name, "matched") || is_named(name, "hl") {
        theme.matched = c;
    } else if is_named(name, "matched_bg") {
        theme.matched_bg = c;
    } else if is_named(name, "current") || is_named(name, "fg+") {
        theme.current = c;
    } else if is_named(name, "current_bg") || is_named(name, "bg+") {
        theme.current_bg = c;
    } else if is_named(name, "current_match") || is_named(name, "hl+") {
        theme.current_match = c;
    } else if is_named(name, "current_match_bg") {
        theme.current_match_bg = c;
    } else if is_named(name, "query") {
        theme.query_fg = c;
    } else if is_named(name, "query_bg") {
        theme.query_bg = c;
    } else if is_named(name, "spinner") {
        theme.spinner = c;
    } else if is_named(name, "info") {
        theme.info = c;
    } else if is_named(name, "prompt") {
        theme.prompt = c;
    } else if is_named(name, "cursor") || is_named(name, "pointer") {
        theme.cursor = c;
    } else if is_named(name, "selected") || is_named(name, "marker") {
        theme.selected = c;
    } else if is_named(name, "header") {
        theme.header = c;
    } else if is_named(name, "border") {
        theme.border = c;
    }
}

impl ColorTheme {
    /// The theme a colour option describes, or the default theme when there
    /// is none.
    pub fn init_from_options(color: Option<&str>) -> (r: ColorTheme)
        ensures
            r == match color {
                Some(c) => theme_of(c@),
                None => default_theme(),
            },
    {
        match color {
            Some(c) => ColorTheme::from_options(c),
            None => ColorTheme::default(),
        }
    }

    /// The theme with every colour the terminal's own and no effects.
    pub fn empty() -> (r: ColorTheme)
        ensures
            r == empty_theme(),
    {
        ColorTheme {
            fg: Color::Default,
            bg: Color::Default,
            normal_effect: Effect::empty(),
            matched: Color::Default,
            matched_bg: Color::Default,
            matched_effect: Effect::empty(),
            current: Color::Default,
            current_bg: Color::Default,
            current_effect: Effect::empty(),
            current_match: Color::Default,
            current_match_bg: Color::Default,
            current_match_effect: Effect::empty(),
            query_fg: Color::Default,
            query_bg: Color::Default,
            query_effect: Effect::empty(),
            spinner: Color::Default,
            info: Color::Default,
            prompt: Color::Default,
            cursor: Color::Default,
            selected: Color::Default,
            header: Color::Default,
            border: Color::Default,
        }
    }

    /// Reads a colour option such as `fg:#ff0000,hl:6`: the default theme
    /// with each comma-separated `name:value` pair applied in order.
    pub fn from_options(color: &str) -> (r: ColorTheme)
        ensures
            r == theme_of(color@),
    {
        let mut theme = ColorTheme::default();
        let pairs = split_char(color, ',');
        let ghost views = pairs@.map_values(|p: String| p@);
        let mut k: usize = 0;
        while k < pairs.len()
            invariant
                k <= pairs@.len(),
                views == pairs@.map_values(|p: String| p@),
                views == split_on(color@, ','),
                theme == apply_pairs(default_theme(), views.take(k as int)),
            decreases pairs@.len() - k,
        {
            assert(views.take(k + 1).drop_last() == views.take(k as int));
            let parts = split_char(pairs[k].as_str(), ':');
            if parts.len() >= 2 {
                assert(parts@.map_values(|p: String| p@)[0] == parts@[0]@);
                assert(parts@.map_values(|p: String| p@)[1] == parts@[1]@);
                let c = parse_color(&parts[1]);
                set_color(&mut theme, &parts[0], c);
            }
            k += 1;
        }
        assert(views.take(k as int) == views);
        theme
    }

    /// Normal text.
    pub fn normal(&self) -> (r: Attr)
        ensures
            r == (Attr { fg: self.fg, bg: self.bg, effect: self.normal_effect }),
    {
        Attr { fg: self.fg, bg: self.bg, effect: self.normal_effect }
    }

    /// Matched parts of normal lines.
    pub fn matched(&self) -> (r: Attr)
        ensures
            r == (Attr { fg: self.matched, bg: self.matched_bg, effect: self.matched_effect }),
    {
        Attr { fg: self.matched, bg: self.matched_bg, effect: self.matched_effect }
    }

    /// The current line.
    pub fn current(&self) -> (r: Attr)
        ensures
            r == (Attr { fg: self.current, bg: self.current_bg, effect: self.current_effect }),
    {
        Attr { fg: self.current, bg: self.current_bg, effect: self.current_effect }
    }

    /// Matched parts of the current line.
    pub fn current_match(&self) -> (r: Attr)
        ensures
            r == (Attr {
                fg: self.current_match,
                bg: self.current_match_bg,
                effect: self.current_match_effect,
            }),
    {
        Attr {
            fg: self.current_match,
            bg: self.current_match_bg,
            effect: self.current_match_effect,
        }
    }

    /// The query.
    pub fn query(&self) -> (r: Attr)
        ensures
            r == (Attr { fg: self.query_fg, bg: self.query_bg, effect: self.query_effect }),
    {
        Attr { fg: self.query_fg, bg: self.query_bg, effect: self.query_effect }
    }

    /// The spinner, in bold.
    pub fn spinner(&self) -> (r: Attr)
        ensures
            r == (Attr { fg: self.spinner, bg: self.bg, effect: Effect { bits: 1 } }),
    {
        Attr { fg: self.spinner, bg: self.bg, effect: Effect::bold() }
    }

    /// The information line.
    pub fn info(&self) -> (r: Attr)
        ensures
            r == (Attr { fg: self.info, bg: self.bg, effect: Effect { bits: 0 } }),
    {
        Attr { fg: self.info, bg: self.bg, effect: Effect::empty() }
    }

    /// The prompt.
    pub fn prompt(&self) -> (r: Attr)
        ensures
            r == (Attr { fg: self.prompt, bg: self.bg, effect: Effect { bits: 0 } }),
    {
        Attr { fg: self.prompt, bg: self.bg, effect: Effect::empty() }
    }

    /// The cursor.
    pub fn cursor(&self) -> (r: Attr)
        ensures
            r == (Attr { fg: self.cursor, bg: self.current_bg, effect: Effect { bits: 0 } }),
    {
        Attr { fg: self.cursor, bg: self.current_bg, effect: Effect::empty() }
    }

    /// The selection marker.
    pub fn selected(&self) -> (r: Attr)
        ensures
            r == (Attr { fg: self.selected, bg: self.current_bg, effect: Effect { bits: 0 } }),
    {
        Attr { fg: self.selected, bg: self.current_bg, effect: Effect::empty() }
    }

    /// The header.
    pub fn header(&self) -> (r: Attr)
        ensures
            r == (Attr { fg: self.header, bg: self.bg, effect: Effect { bits: 0 } }),
    {
        Attr { fg: self.header, bg: self.bg, effect: Effect::empty() }
    }

    /// The border.
    pub fn border(&self) -> (r: Attr)
        ensures
            r == (Attr { fg: self.border, bg: self.bg, effect: Effect { bits: 0 } }),
    {
        Attr { fg: self.border, bg: self.bg, effect: Effect::empty() }
    }
}

impl Default for ColorTheme {
    fn default() -> (r: ColorTheme)
        ensures
            r == default_theme(),
    {
        ColorTheme {
            normal_effect: Effect::dim(),
            matched: Color::AnsiValue(6),
            current_effect: Effect::bold(),
            current_match: Color::AnsiValue(6),
            info: Color::AnsiValue(3),
            cursor: Color::AnsiValue(2),
            ..ColorTheme::empty()
        }
    }
}

} // verus!
