use matrix_mozilla_bot::mozilla::MozData;
use matrix_mozilla_bot::notify::{before, join_names, sorted_names};

fn strings(items: &[&str]) -> Vec<String> {
    items.iter().map(|s| s.to_string()).collect()
}

#[test]
fn names_are_sorted_once_each() {
    assert_eq!(
        sorted_names(&strings(&["c", "a", "b", "a"])),
        strings(&["a", "b", "c"])
    );
    assert!(sorted_names(&Vec::new()).is_empty());
}

#[test]
fn order_matches_str_order() {
    assert!(before("a", "b"));
    assert!(before("ab", "abc"));
    assert!(!before("abc", "ab"));
    assert!(!before("x", "x"));
    assert!(before("B", "a"));
    assert!(before("z", "é"));
}

#[test]
fn names_join_with_commas() {
    assert_eq!(join_names(&strings(&["a", "b", "c"])), "a, b, c");
    assert_eq!(join_names(&strings(&["only"])), "only");
    assert_eq!(join_names(&Vec::new()), "");
}

#[test]
fn announcement_texts() {
    let src = MozData::new("firefox/candidates", None, false);
    let (plain, html) = src.announcement(&strings(&["v2-rc2", "v2-rc1"]));
    assert_eq!(plain, "firefox/candidates got new uploads: v2-rc1, v2-rc2");
    assert_eq!(
        html,
        "<a href=\"https://ftp.mozilla.org/pub/firefox/candidates/\">firefox/candidates</a> got new uploads: v2-rc1, v2-rc2"
    );
}
