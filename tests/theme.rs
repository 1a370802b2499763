use branch_picker::number::{parse_decimal_u8, parse_hex_pair};
use branch_picker::{Attr, Color, ColorTheme, Effect};

#[test]
fn default_theme_colours() {
    let t = ColorTheme::default();
    assert_eq!(t.matched, Color::AnsiValue(6));
    assert_eq!(t.info, Color::AnsiValue(3));
    assert_eq!(t.cursor, Color::AnsiValue(2));
    assert_eq!(t.normal(), Attr { fg: Color::Default, bg: Color::Default, effect: Effect { bits: 2 } });
    assert_eq!(t.current().effect, Effect::bold());
    assert_eq!(t.spinner().effect, Effect::bold());
    assert_eq!(ColorTheme::init_from_options(None), t);
}

#[test]
fn options_set_colours_in_order() {
    let t = ColorTheme::from_options("fg:#ff0080,hl:5,bg+:17,fg:1,unknown:3,pointer:200");
    assert_eq!(t.fg, Color::AnsiValue(1));
    assert_eq!(t.matched, Color::AnsiValue(5));
    assert_eq!(t.current_bg, Color::AnsiValue(17));
    assert_eq!(t.cursor, Color::AnsiValue(200));
    assert_eq!(t.cursor().bg, Color::AnsiValue(17));
    let t = ColorTheme::init_from_options(Some("query:#00FF10"));
    assert_eq!(t.query().fg, Color::Rgb(0, 255, 16));
}

#[test]
fn bad_values_fall_back() {
    let t = ColorTheme::from_options("fg:256,bg:#zz0000,hl:x,info");
    assert_eq!(t.fg, Color::Default);
    assert_eq!(t.bg, Color::Rgb(255, 0, 0));
    assert_eq!(t.matched, Color::Default);
    assert_eq!(t.info, Color::AnsiValue(3));
}

#[test]
fn number_parsing_matches_std() {
    for s in ["0", "7", "+7", "255", "256", "0007", "", "+", "-1", "1a", "99999999999"] {
        assert_eq!(parse_decimal_u8(s), s.parse::<u8>().ok(), "{:?}", s);
    }
    for s in ["ff", "0A", "+f", "zz", "f+", "--", "+-"] {
        let b = s.as_bytes();
        assert_eq!(parse_hex_pair(b[0], b[1]), u8::from_str_radix(s, 16).unwrap_or(255), "{:?}", s);
    }
}
