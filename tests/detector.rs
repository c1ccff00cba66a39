use matrix_mozilla_bot::mozilla::{MozData, PollError};

fn strings(items: &[&str]) -> Vec<String> {
    items.iter().map(|s| s.to_string()).collect()
}

fn sorted(mut v: Vec<String>) -> Vec<String> {
    v.sort();
    v
}

#[test]
fn alpha_first_poll_is_baseline_then_reports_new_entry() {
    let mut alpha = MozData::new("alpha", None, false);
    let first = alpha.poll(&strings(&["../", "a/", "b/"]), &Vec::new()).unwrap();
    assert!(first.is_empty());
    assert_eq!(sorted(alpha.data.clone()), strings(&["a", "b"]));
    let second = alpha.poll(&strings(&["../", "a/", "b/", "c/"]), &Vec::new()).unwrap();
    assert_eq!(second, strings(&["c"]));
    assert_eq!(sorted(alpha.data.clone()), strings(&["a", "b", "c"]));
}

#[test]
fn beta_filter_applies_before_recursion() {
    let mut beta = MozData::new("beta", Some("v2"), true);
    let listing = strings(&["../", "v2-rc1/", "other/"]);
    let tops = beta.top_level_candidates(&listing);
    assert_eq!(tops, strings(&["v2-rc1"]));
    let subs = vec![strings(&["../", "build1", "build2"])];
    let first = beta.poll(&listing, &subs).unwrap();
    assert!(first.is_empty());
    assert_eq!(
        sorted(beta.data.clone()),
        strings(&["v2-rc1/build1", "v2-rc1/build2"])
    );
    let second = beta.poll(&listing, &subs).unwrap();
    assert!(second.is_empty());
}

#[test]
fn filtered_out_entry_is_never_reported() {
    let mut beta = MozData::new("beta", Some("v2"), true);
    let subs = vec![strings(&["build1"])];
    beta.poll(&strings(&["v2-rc1/", "other/"]), &subs).unwrap();
    let subs = vec![strings(&["build1", "build2"])];
    let delta = beta.poll(&strings(&["v2-rc1/", "other/", "other-v3/"]), &subs).unwrap();
    assert_eq!(delta, strings(&["v2-rc1/build2"]));
}

#[test]
fn repeated_poll_reports_nothing() {
    let mut src = MozData::new("gamma", None, false);
    src.poll(&strings(&["x"]), &Vec::new()).unwrap();
    let delta = src.poll(&strings(&["x", "y"]), &Vec::new()).unwrap();
    assert_eq!(delta, strings(&["y"]));
    let again = src.poll(&strings(&["x", "y"]), &Vec::new()).unwrap();
    assert!(again.is_empty());
}

#[test]
fn vanished_entries_are_dropped_from_snapshot() {
    let mut src = MozData::new("delta", None, false);
    src.poll(&strings(&["x", "y"]), &Vec::new()).unwrap();
    let delta = src.poll(&strings(&["y", "z"]), &Vec::new()).unwrap();
    assert_eq!(delta, strings(&["z"]));
    assert_eq!(sorted(src.data.clone()), strings(&["y", "z"]));
}

#[test]
fn empty_first_listing_keeps_baseline_pending() {
    let mut src = MozData::new("eps", None, false);
    assert!(src.poll(&Vec::new(), &Vec::new()).unwrap().is_empty());
    assert!(src.poll(&strings(&["a"]), &Vec::new()).unwrap().is_empty());
    assert_eq!(src.poll(&strings(&["a", "b"]), &Vec::new()).unwrap(), strings(&["b"]));
}

#[test]
fn mismatched_sub_listings_are_refused() {
    let mut src = MozData::new("beta", None, true);
    let r = src.poll(&strings(&["a/", "b/"]), &vec![strings(&["x"])]);
    assert_eq!(r, Err(PollError::SubListingMismatch));
    assert!(src.data.is_empty());
}

#[test]
fn duplicate_links_count_once() {
    let src = MozData::new("zeta", None, false);
    let tops = src.top_level_candidates(&strings(&["a/", "a", "a//", "..", "../"]));
    assert_eq!(tops, strings(&["a"]));
}

#[test]
fn sub_entries_are_prefixed_and_deduplicated() {
    let subs = MozData::subdir_candidates("v2", &strings(&["../", "x", "x", "y/"]));
    assert_eq!(subs, strings(&["v2/x", "v2/y/"]));
}

#[test]
fn merge_unions_sub_listings() {
    let tops = strings(&["a", "b"]);
    let subs = vec![strings(&["1", "2"]), strings(&["1"])];
    let merged = MozData::merge_subdirs(&tops, &subs);
    assert_eq!(sorted(merged), strings(&["a/1", "a/2", "b/1"]));
}

#[test]
fn urls_follow_base_and_part() {
    let src = MozData::new("firefox/nightly", None, false);
    assert_eq!(src.base_url, "https://ftp.mozilla.org/pub");
    assert_eq!(src.listing_url(), "https://ftp.mozilla.org/pub/firefox/nightly/");
    assert_eq!(
        src.subdir_url("v2-rc1"),
        "https://ftp.mozilla.org/pub/firefox/nightly/v2-rc1/"
    );
}

#[test]
fn links_are_read_from_html() {
    let src = MozData::new("beta", Some("v2"), false);
    let html = "<html><body><a href=\"../\">../</a><a href=\"v2-rc1/\">v2-rc1/</a>\
                <a href=\"other/\">other/</a></body></html>";
    assert_eq!(src.candidates_from_html(html), strings(&["v2-rc1"]));
}

#[test]
fn sub_links_are_read_from_html() {
    let html = "<html><body><a href=\"../\">..</a><a href=\"b1\">build1</a></body></html>";
    assert_eq!(
        MozData::subdir_candidates_from_html("v2-rc1", html),
        strings(&["v2-rc1/build1"])
    );
}

#[test]
fn html_without_links_gives_nothing() {
    let src = MozData::new("beta", None, false);
    assert!(src.candidates_from_html("<p>no links here</p>").is_empty());
}
