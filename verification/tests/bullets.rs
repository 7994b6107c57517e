use rust_scraping::bullets::is_blank_item;
use rust_scraping::bullets::list_to_bullets;

fn strings(items: &[&str]) -> Vec<String> {
    items.iter().map(|s| s.to_string()).collect()
}

#[test]
fn empty_list_renders_as_empty_text() {
    assert_eq!(list_to_bullets(&Vec::new()), "");
}

#[test]
fn every_item_becomes_one_line_in_order() {
    let out = list_to_bullets(&strings(&["first", "second", "third"]));
    assert_eq!(out, "\u{e2}\u{20ac}\u{a2} first\n\u{e2}\u{20ac}\u{a2} second\n\u{e2}\u{20ac}\u{a2} third");
}

#[test]
fn blank_items_are_left_out() {
    let out = list_to_bullets(&strings(&["", "keep", ".", " ", "N/A", "also"]));
    assert_eq!(out, "\u{e2}\u{20ac}\u{a2} keep\n\u{e2}\u{20ac}\u{a2} also");
}

#[test]
fn only_blank_items_render_as_empty_text() {
    assert_eq!(list_to_bullets(&strings(&["N/A"])), "");
    assert_eq!(list_to_bullets(&strings(&["", ".", " ", "N/A"])), "");
}

#[test]
fn leading_blank_item_leaves_no_empty_line() {
    let out = list_to_bullets(&strings(&["N/A", "one"]));
    assert_eq!(out, "\u{e2}\u{20ac}\u{a2} one");
}

#[test]
fn near_blank_items_are_kept() {
    let out = list_to_bullets(&strings(&["..", "  ", "n/a", "N/A "]));
    assert_eq!(
        out,
        "\u{e2}\u{20ac}\u{a2} ..\n\u{e2}\u{20ac}\u{a2}   \n\u{e2}\u{20ac}\u{a2} n/a\n\u{e2}\u{20ac}\u{a2} N/A "
    );
}

#[test]
fn blank_items_are_recognized() {
    assert!(is_blank_item(""));
    assert!(is_blank_item("."));
    assert!(is_blank_item(" "));
    assert!(is_blank_item("N/A"));
    assert!(!is_blank_item("a"));
    assert!(!is_blank_item("N/B"));
    assert!(!is_blank_item("\u{e9}"));
    assert!(!is_blank_item("N/A."));
}
