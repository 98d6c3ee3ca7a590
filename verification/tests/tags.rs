use learn_ui::tags::{
    add_tag, build_tag_suggestions, remove_tag, tag_filter_key, tag_filters_for, tags_equal,
};

fn strings(items: &[&str]) -> Vec<String> {
    items.iter().map(|s| s.to_string()).collect()
}

#[test]
fn tag_filter_key_is_order_insensitive() {
    let left = vec!["b".to_string(), "a".to_string()];
    let right = vec!["a".to_string(), "b".to_string()];
    assert_eq!(tag_filter_key(&left), tag_filter_key(&right));
}

#[test]
fn tags_equal_ignores_order() {
    let left = vec!["alpha".to_string(), "beta".to_string()];
    let right = vec!["beta".to_string(), "alpha".to_string()];
    assert!(tags_equal(&left, &right));
}

#[test]
fn build_tag_suggestions_filters_current_and_query() {
    let deck_tags = vec![
        "alpha".to_string(),
        "beta".to_string(),
        "gamma".to_string(),
    ];
    let current = vec!["beta".to_string()];
    let suggestions = build_tag_suggestions(&deck_tags, &current, "a");
    assert_eq!(
        suggestions,
        vec!["alpha".to_string(), "gamma".to_string()]
    );
}

#[test]
fn tag_filter_key_sorts_and_joins() {
    assert_eq!(tag_filter_key(&strings(&["gamma", "alpha", "beta"])), "alpha|beta|gamma");
    assert_eq!(tag_filter_key(&strings(&[])), "");
    assert_eq!(tag_filter_key(&strings(&["solo"])), "solo");
    // prefixes come first, capitals before small letters (code point order)
    assert_eq!(tag_filter_key(&strings(&["ab", "a", "B"])), "B|a|ab");
    // duplicates are kept
    assert_eq!(tag_filter_key(&strings(&["x", "x"])), "x|x");
}

#[test]
fn tag_filter_key_orders_non_ascii_by_code_point() {
    let tags = strings(&["zeta", "\u{e9}t\u{e9}", "ant"]);
    let mut expected = tags.clone();
    expected.sort();
    assert_eq!(tag_filter_key(&tags), expected.join("|"));
}

#[test]
fn tags_equal_counts_repeats_and_differences() {
    assert!(tags_equal(&strings(&[]), &strings(&[])));
    assert!(!tags_equal(&strings(&["a", "a"]), &strings(&["a"])));
    assert!(!tags_equal(&strings(&["a", "b"]), &strings(&["a", "c"])));
    assert!(tags_equal(&strings(&["b", "a", "b"]), &strings(&["b", "b", "a"])));
}

#[test]
fn equal_tags_share_a_filter_key() {
    let left = strings(&["c", "a", "b"]);
    let right = strings(&["b", "c", "a"]);
    assert!(tags_equal(&left, &right));
    assert_eq!(tag_filter_key(&left), tag_filter_key(&right));
}

#[test]
fn build_tag_suggestions_blank_query_gives_nothing() {
    let deck_tags = strings(&["alpha", "beta"]);
    assert!(build_tag_suggestions(&deck_tags, &[], "").is_empty());
    assert!(build_tag_suggestions(&deck_tags, &[], "   ").is_empty());
}

#[test]
fn build_tag_suggestions_trims_query_and_caps_at_six() {
    let deck_tags = strings(&["a1", "a2", "b", "a3", "a4", "a5", "a6", "a7"]);
    let suggestions = build_tag_suggestions(&deck_tags, &[], "  a ");
    assert_eq!(suggestions, strings(&["a1", "a2", "a3", "a4", "a5", "a6"]));
}

#[test]
fn build_tag_suggestions_is_case_sensitive() {
    let deck_tags = strings(&["Alpha", "alpha"]);
    assert_eq!(build_tag_suggestions(&deck_tags, &[], "A"), strings(&["Alpha"]));
}

#[test]
fn add_tag_trims_and_appends_new_tags() {
    let mut tags = strings(&["a"]);
    assert!(add_tag(&mut tags, "  b  "));
    assert_eq!(tags, strings(&["a", "b"]));
}

#[test]
fn add_tag_keeps_existing_and_blank() {
    let mut tags = strings(&["a"]);
    assert!(add_tag(&mut tags, "a"));
    assert_eq!(tags, strings(&["a"]));
    assert!(!add_tag(&mut tags, "   "));
    assert_eq!(tags, strings(&["a"]));
}

#[test]
fn adding_a_tag_twice_is_adding_it_once() {
    let mut once = strings(&["x"]);
    add_tag(&mut once, "y");
    let mut twice = strings(&["x"]);
    add_tag(&mut twice, "y");
    add_tag(&mut twice, " y");
    assert_eq!(once, twice);
}

#[test]
fn remove_tag_drops_every_copy() {
    let mut tags = strings(&["a", "b", "a", "c"]);
    remove_tag(&mut tags, "a");
    assert_eq!(tags, strings(&["b", "c"]));
    remove_tag(&mut tags, "zzz");
    assert_eq!(tags, strings(&["b", "c"]));
}

#[test]
fn remove_undoes_add() {
    let original = strings(&["a", "b"]);
    let mut tags = original.clone();
    add_tag(&mut tags, " new ");
    remove_tag(&mut tags, "new");
    assert_eq!(tags, original);
}

#[test]
fn tag_filters_for_choice() {
    assert_eq!(tag_filters_for(Some("x".to_string())), strings(&["x"]));
    assert!(tag_filters_for(None).is_empty());
}

#[test]
fn tag_edits_keep_tags_distinct() {
    let mut tags = strings(&["a", "b"]);
    add_tag(&mut tags, " b ");
    add_tag(&mut tags, "c");
    add_tag(&mut tags, "c");
    remove_tag(&mut tags, "a");
    assert_eq!(tags, strings(&["b", "c"]));
}
