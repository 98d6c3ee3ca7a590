use learn_ui::highlight::{highlight_spans, highlight_spans_lowered, HighlightSpan};

fn span(text: &str, is_match: bool) -> HighlightSpan {
    HighlightSpan { text: text.to_string(), is_match }
}

#[test]
fn highlight_spans_marks_match_segments() {
    let spans = highlight_spans("Rust", "st");
    assert_eq!(spans.len(), 2);
    assert_eq!(spans[0].text, "Ru");
    assert!(!spans[0].is_match);
    assert_eq!(spans[1].text, "st");
    assert!(spans[1].is_match);
}

#[test]
fn highlight_spans_handles_no_match() {
    let spans = highlight_spans("Rust", "zz");
    assert_eq!(spans.len(), 1);
    assert_eq!(spans[0].text, "Rust");
    assert!(!spans[0].is_match);
}

#[test]
fn highlight_ignores_case_of_text_and_query() {
    let spans = highlight_spans("RUST rocks", "rU");
    assert_eq!(
        spans,
        vec![span("RU", true), span("ST rocks", false)]
    );
}

#[test]
fn highlight_marks_every_match() {
    let spans = highlight_spans("abcabcab", "ab");
    assert_eq!(
        spans,
        vec![
            span("ab", true),
            span("c", false),
            span("ab", true),
            span("c", false),
            span("ab", true),
        ]
    );
}

#[test]
fn highlight_matches_do_not_overlap() {
    let spans = highlight_spans("aaa", "aa");
    assert_eq!(spans, vec![span("aa", true), span("a", false)]);
}

#[test]
fn highlight_trims_the_query() {
    let spans = highlight_spans("Rust", "  st \n");
    assert_eq!(spans, vec![span("Ru", false), span("st", true)]);
}

#[test]
fn highlight_blank_query_or_text_gives_one_plain_piece() {
    assert_eq!(highlight_spans("Rust", "   "), vec![span("Rust", false)]);
    assert_eq!(highlight_spans("Rust", ""), vec![span("Rust", false)]);
    assert_eq!(highlight_spans("", "st"), vec![span("", false)]);
}

#[test]
fn highlight_whole_text_match() {
    assert_eq!(highlight_spans("Rust", "rust"), vec![span("Rust", true)]);
}

#[test]
fn highlight_pieces_join_to_the_text() {
    let text = "Über Straße über";
    let spans = highlight_spans(text, "über");
    let joined: String = spans.iter().map(|s| s.text.as_str()).collect();
    assert_eq!(joined, text);
    assert_eq!(
        spans,
        vec![span("Über", true), span(" Straße ", false), span("über", true)]
    );
}

#[test]
fn highlight_lowered_uses_the_given_forms() {
    let text: Vec<char> = "AbC".chars().collect();
    let lowered: Vec<Vec<char>> = vec![vec!['a'], vec!['b'], vec!['c']];
    let needle: Vec<char> = "bc".chars().collect();
    let spans = highlight_spans_lowered(&text, &lowered, &needle);
    assert_eq!(spans, vec![span("A", false), span("bC", true)]);
}

#[test]
fn highlight_lowered_empty_needle_gives_whole_text() {
    let text: Vec<char> = "AbC".chars().collect();
    let lowered: Vec<Vec<char>> = vec![vec!['a'], vec!['b'], vec!['c']];
    let spans = highlight_spans_lowered(&text, &lowered, &[]);
    assert_eq!(spans, vec![span("AbC", false)]);
}

#[test]
fn marked_pieces_are_the_query_up_to_case() {
    let spans = highlight_spans("RUST rocks, rust rules, RuSt", "  rUsT ");
    let marked: Vec<&HighlightSpan> = spans.iter().filter(|s| s.is_match).collect();
    assert_eq!(marked.len(), 3);
    for s in marked {
        assert_eq!(s.text.to_lowercase(), "rust");
    }
}

#[test]
fn highlight_pieces_are_never_empty_and_plain_pieces_never_touch() {
    let cases = [
        ("abcabc", "abc"),
        ("xxabyyabzz", "ab"),
        ("aaaa", "aa"),
        ("Hello World", "o"),
        ("no match here", "zz"),
        ("ABab", "ab"),
    ];
    for (text, query) in cases {
        let spans = highlight_spans(text, query);
        for s in &spans {
            assert!(!s.text.is_empty(), "empty piece for {text:?} / {query:?}");
        }
        for w in spans.windows(2) {
            assert!(w[0].is_match || w[1].is_match, "two plain pieces side by side for {text:?}");
        }
        let joined: String = spans.iter().map(|s| s.text.as_str()).collect();
        assert_eq!(joined, text);
        for s in spans.iter().filter(|s| s.is_match) {
            assert_eq!(s.text.to_ascii_lowercase(), query.trim().to_ascii_lowercase());
        }
    }
}

#[test]
fn highlight_of_empty_text_is_one_empty_piece() {
    assert_eq!(highlight_spans("", "abc"), vec![span("", false)]);
}

#[test]
fn highlight_leaves_no_occurrence_unmarked() {
    let cases = [("aAaA", " aa "), ("xAbyab", "AB"), ("abababa", "aba"), ("hello", "L")];
    for (text, query) in cases {
        let needle = query.trim().to_ascii_lowercase();
        for s in highlight_spans(text, query).iter().filter(|s| !s.is_match) {
            assert!(!s.text.to_ascii_lowercase().contains(&needle), "{text:?} / {query:?}");
        }
    }
}
