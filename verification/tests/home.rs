use learn_ui::home::{
    latest_sessions, percent_of, session_meta_label, sort_desc, upcoming_decks, RecentSession,
    UpcomingDeck,
};

fn session(deck_id: u64, secs: i64, nanos: u32) -> RecentSession {
    RecentSession {
        deck_id,
        deck_name: format!("deck {deck_id}"),
        completed_at: (secs, nanos),
        meta_label: String::new(),
        again_pct: 0,
        hard_pct: 0,
        good_pct: 0,
        easy_pct: 0,
    }
}

fn deck(deck_id: u64, due: u32, new: u32) -> UpcomingDeck {
    UpcomingDeck { deck_id, deck_name: format!("deck {deck_id}"), due, new }
}

fn session_ids(v: &[RecentSession]) -> Vec<u64> {
    v.iter().map(|s| s.deck_id).collect()
}

fn deck_ids(v: &[UpcomingDeck]) -> Vec<u64> {
    v.iter().map(|d| d.deck_id).collect()
}

#[test]
fn latest_sessions_newest_first_cut_to_three() {
    let sessions = vec![
        session(1, 100, 0),
        session(2, 300, 0),
        session(3, 200, 5),
        session(4, 200, 9),
        session(5, 50, 0),
    ];
    assert_eq!(session_ids(&latest_sessions(sessions)), vec![2, 4, 3]);
}

#[test]
fn latest_sessions_keep_order_of_ties_and_short_lists() {
    let sessions = vec![session(1, 10, 0), session(2, 10, 0)];
    assert_eq!(session_ids(&latest_sessions(sessions)), vec![1, 2]);
    assert!(latest_sessions(Vec::new()).is_empty());
}

#[test]
fn leap_second_sorts_within_its_second() {
    let sessions = vec![session(1, 59, 1_500_000_000), session(2, 60, 0), session(3, 59, 999)];
    assert_eq!(session_ids(&latest_sessions(sessions)), vec![2, 1, 3]);
}

#[test]
fn upcoming_decks_need_waiting_cards() {
    let decks = vec![
        deck(1, 0, 0),
        deck(2, 5, 1),
        deck(3, 5, 7),
        deck(4, 0, 3),
        deck(5, 9, 0),
        deck(6, 1, 0),
    ];
    assert_eq!(deck_ids(&upcoming_decks(decks)), vec![5, 3, 2]);
    assert!(upcoming_decks(vec![deck(1, 0, 0)]).is_empty());
}

#[test]
fn sort_is_stable_and_keeps_everything() {
    let decks = vec![deck(1, 2, 2), deck(2, 3, 0), deck(3, 2, 2), deck(4, 0, 0)];
    assert_eq!(deck_ids(&sort_desc(decks)), vec![2, 1, 3, 4]);
}

#[test]
fn percentages_round_down_and_cap() {
    assert_eq!(percent_of(1, 3), 33);
    assert_eq!(percent_of(2, 3), 66);
    assert_eq!(percent_of(3, 3), 100);
    assert_eq!(percent_of(5, 0), 0);
    assert_eq!(percent_of(u32::MAX, u32::MAX), 1);
    assert_eq!(percent_of(50_000_000, 100_000_000), 42);
}

#[test]
fn session_meta_line() {
    assert_eq!(session_meta_label("Yesterday", 12), "Yesterday \u{b7} 12 Cards");
}
