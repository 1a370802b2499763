use branch_picker::{Delimiter, FieldRange, Item, Pattern, PatternError};

fn make(line: &str, ansi: bool, shown: Vec<FieldRange>, matched: Vec<FieldRange>, d: &Delimiter) -> Item {
    Item::new(line, ansi, &shown, &matched, d)
}

#[test]
fn display_and_match_fields_pick_different_fields() {
    let item = make("a b c", false, vec![FieldRange::Single(2)], vec![FieldRange::Single(1)], &Delimiter::Blank);
    assert_eq!(item.display_text(), "b");
    assert_eq!(item.match_text(), "a");
}

#[test]
fn regex_delimiter_gives_the_same_fields() {
    let d = Delimiter::Regex(Pattern::new(r"[\t\n ]+").unwrap());
    let item = make("a b c", false, vec![FieldRange::Single(2)], vec![FieldRange::Single(1)], &d);
    assert_eq!(item.display_text(), "b");
    assert_eq!(item.match_text(), "a");
}

#[test]
fn regex_delimiter_splits_on_its_matches() {
    let d = Delimiter::Regex(Pattern::new(r"::").unwrap());
    let item = make("lion::tiger::leopard", false, vec![FieldRange::Single(3)], vec![], &d);
    assert_eq!(item.display_text(), "leopard");
    assert_eq!(item.match_text(), "lion::tiger::leopard");
}

#[test]
fn invalid_pattern_is_refused() {
    assert!(matches!(Pattern::new("(unclosed"), Err(PatternError::Invalid)));
}

#[test]
fn empty_selection_means_whole_line() {
    let item = make("one  two\tthree", false, vec![], vec![], &Delimiter::Blank);
    assert_eq!(item.display_text(), "one  two\tthree");
    assert_eq!(item.match_text(), "one  two\tthree");
}

#[test]
fn empty_line_gives_an_empty_item() {
    let item = make("", false, vec![FieldRange::Single(1)], vec![], &Delimiter::Blank);
    assert_eq!(item.display_text(), "");
    assert_eq!(item.match_text(), "");
}

#[test]
fn ranges_and_negative_positions() {
    let d = Delimiter::Blank;
    assert_eq!(make("a b c", false, vec![FieldRange::Single(-1)], vec![], &d).display_text(), "c");
    assert_eq!(make("a b c", false, vec![FieldRange::RightInf(2)], vec![], &d).display_text(), "bc");
    assert_eq!(make("a b c", false, vec![FieldRange::LeftInf(2)], vec![], &d).display_text(), "ab");
    assert_eq!(make("a b c", false, vec![FieldRange::Both(2, 3)], vec![], &d).display_text(), "bc");
    assert_eq!(make("a b c", false, vec![FieldRange::Both(-2, -1)], vec![], &d).display_text(), "bc");
    assert_eq!(make("a b c", false, vec![FieldRange::Single(4)], vec![], &d).display_text(), "");
    assert_eq!(make("a b c", false, vec![FieldRange::Single(0)], vec![], &d).display_text(), "");
}

#[test]
fn selected_fields_come_in_line_order() {
    let d = Delimiter::Blank;
    let item = make("a b c", false, vec![FieldRange::Single(3), FieldRange::Single(1)], vec![], &d);
    assert_eq!(item.display_text(), "ac");
}

#[test]
fn leading_blanks_give_an_empty_first_field() {
    let item = make("  x y", false, vec![FieldRange::Single(2)], vec![], &Delimiter::Blank);
    assert_eq!(item.display_text(), "x");
}

#[test]
fn escape_sequences_are_stripped_when_interpreted() {
    let line = "\x1b[31mred\x1b[0m plain";
    let item = make(line, true, vec![], vec![FieldRange::Single(1)], &Delimiter::Blank);
    assert_eq!(item.display_text(), "red plain");
    assert_eq!(item.match_text(), "red");
}

#[test]
fn escape_sequences_are_kept_otherwise() {
    let line = "\x1b[31mred\x1b[0m";
    let item = make(line, false, vec![], vec![], &Delimiter::Blank);
    assert_eq!(item.display_text(), line);
}

#[test]
fn strip_ansi_handles_short_and_unfinished_sequences() {
    assert_eq!(branch_picker::ansi::strip_ansi("a\x1b(b"), "ab");
    assert_eq!(branch_picker::ansi::strip_ansi("a\x1b[1;3"), "a");
    assert_eq!(branch_picker::ansi::strip_ansi("plain"), "plain");
}

#[test]
fn plain_items_keep_the_line() {
    let item = Item::plain("error: x y".to_string());
    assert_eq!(item.display_text(), "error: x y");
    assert_eq!(item.match_text(), "error: x y");
}

#[test]
fn field_range_covers() {
    assert!(FieldRange::Single(1).covers(0, 3));
    assert!(!FieldRange::Single(1).covers(1, 3));
    assert!(FieldRange::Single(-3).covers(0, 3));
    assert!(!FieldRange::Single(-4).covers(0, 3));
    assert!(!FieldRange::RightInf(1).covers(3, 3));
}
