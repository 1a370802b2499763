use branch_picker::{DefaultSkimSelector, Item, Pattern};

fn item(text: &str) -> Item {
    Item::plain(text.to_string())
}

#[test]
fn first_n_selects_by_position_only() {
    let s = DefaultSkimSelector::default().first_n(2);
    assert!(s.should_select(0, &item("x")));
    assert!(s.should_select(1, &item("anything")));
    assert!(!s.should_select(2, &item("x")));
    assert!(!s.should_select(2, &item("anything")));
}

#[test]
fn preset_selects_exact_strings() {
    let s = DefaultSkimSelector::default().preset(vec!["main".to_string()]);
    assert!(s.should_select(5, &item("main")));
    assert!(!s.should_select(5, &item("feature/x")));
    assert!(!s.should_select(5, &item("main2")));
}

#[test]
fn regex_selects_matching_text() {
    let s = DefaultSkimSelector::default().regex(Pattern::new("^feature/").unwrap());
    assert!(s.should_select(5, &item("feature/x")));
    assert!(!s.should_select(5, &item("main")));
}

#[test]
fn unset_selector_selects_nothing() {
    let s = DefaultSkimSelector::default();
    assert!(!s.should_select(0, &item("main")));
}

#[test]
fn criteria_combine_with_or() {
    let s = DefaultSkimSelector::default()
        .first_n(1)
        .preset(vec!["dev".to_string()])
        .regex(Pattern::new("^rel").unwrap());
    assert!(s.should_select(0, &item("zzz")));
    assert!(s.should_select(9, &item("dev")));
    assert!(s.should_select(9, &item("release")));
    assert!(!s.should_select(9, &item("zzz")));
}

#[test]
fn selection_uses_the_shown_text() {
    let shown = Item::new("a main", false, &vec![branch_picker::FieldRange::Single(2)], &vec![], &branch_picker::Delimiter::Blank);
    let s = DefaultSkimSelector::default().preset(vec!["main".to_string()]);
    assert!(s.should_select(3, &shown));
}
