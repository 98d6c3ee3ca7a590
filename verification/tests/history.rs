use learn_ui::history::{history_avatar, history_empty_message, HistoryFilter};

#[test]
fn empty_search_shows_everything() {
    let filter = HistoryFilter::new("   ", "Rust", false);
    assert!(filter.shows("Jan 5, 2025", 0, 0));
    assert!(!filter.matches_deck);
}

#[test]
fn search_matches_date_ignoring_case() {
    let filter = HistoryFilter::new(" JAN ", "Rust", false);
    assert!(filter.shows("Jan 5, 2025", 0, 0));
    assert!(!filter.shows("Feb 2, 2025", 0, 0));
}

#[test]
fn search_matching_deck_shows_every_session() {
    let filter = HistoryFilter::new("rus", "Rust", false);
    assert!(filter.matches_deck);
    assert!(filter.shows("Feb 2, 2025", 0, 0));
}

#[test]
fn mistakes_only_needs_again_or_hard() {
    let filter = HistoryFilter::new("", "Rust", true);
    assert!(!filter.shows("Jan 5", 0, 0));
    assert!(filter.shows("Jan 5", 1, 0));
    assert!(filter.shows("Jan 5", 0, 2));
    assert!(filter.shows("Jan 5", u32::MAX, u32::MAX));
}

#[test]
fn avatar_letter() {
    assert_eq!(history_avatar("rust"), "r");
    assert_eq!(history_avatar(""), "D");
}

#[test]
fn history_empty_messages() {
    assert_eq!(history_empty_message(false), "No recent sessions yet.");
    assert_eq!(history_empty_message(true), "No sessions match that search.");
}

#[test]
fn lowered_filter_parts() {
    let query: Vec<char> = "jan".chars().collect();
    let label: Vec<char> = "rust".chars().collect();
    let filter = HistoryFilter::from_lowered(query, &label, false);
    assert!(!filter.matches_deck);
    let date: Vec<char> = "jan 5".chars().collect();
    assert!(filter.shows_lowered(&date, 0, 0));
    let other: Vec<char> = "feb 2".chars().collect();
    assert!(!filter.shows_lowered(&other, 0, 0));
}
