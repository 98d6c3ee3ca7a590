use learn_ui::session::{
    completion_flags, context_label, deck_initial, due_label, empty_session_message,
    focus_cycle_ids_for_phase, focus_cycle_script, focus_element_script,
    focus_element_script_quoted, focus_target_for_phase, format_timer, grade_button_variant,
    progress_label, session_key_action, session_timer_script, session_timer_script_quoted,
    timer_key, CompletionFlags, Grade, PracticeCounts, SessionKey, SessionKeyAction,
    SessionPhase, TimerSettings, streak_label, empty_session_action, completion_note,
    completion_destination, destination_label, retry_action, practice_counts_for_tag,
    CompletionDestination, EmptySessionTarget, FocusMemory, LastAction, TagPracticeStat,
    focus_cycle_script_quoted,
};

fn flags(again: bool, all: bool, mistakes: bool) -> CompletionFlags {
    CompletionFlags {
        can_practice_again: again,
        can_practice_all: all,
        can_practice_mistakes: mistakes,
    }
}

#[test]
fn timer_label_pads_seconds() {
    assert_eq!(format_timer(0), "Time: 0:00");
    assert_eq!(format_timer(9), "Time: 0:09");
    assert_eq!(format_timer(65), "Time: 1:05");
    assert_eq!(format_timer(600), "Time: 10:00");
    assert_eq!(format_timer(3599), "Time: 59:59");
}

#[test]
fn timer_script_fills_in_settings() {
    let script = session_timer_script("0:3", true, false, true, false, 20, 45);
    assert!(script.contains("const key = \"0:3\";"));
    assert!(script.contains("const active = true;"));
    assert!(script.contains("const showTimer = false;"));
    assert!(script.contains("const softReminder = true;"));
    assert!(script.contains("const autoAdvance = false;"));
    assert!(script.contains("const softSecs = 20;"));
    assert!(script.contains("const autoSecs = 45;"));
    assert!(script.starts_with("(function() {"));
    assert!(script.ends_with("})();"));
}

#[test]
fn timer_script_quotes_the_key_as_debug_does() {
    let key = "a\"b\\c";
    let quoted = format!("{:?}", key);
    assert_eq!(
        session_timer_script(key, false, true, true, true, 5, 600),
        session_timer_script_quoted(&quoted, false, true, true, true, 5, 600)
    );
    assert!(session_timer_script(key, false, true, true, true, 5, 600)
        .contains("const key = \"a\\\"b\\\\c\";"));
}

#[test]
fn timer_key_joins_state_and_index() {
    assert_eq!(timer_key(false, 0), "0:0");
    assert_eq!(timer_key(true, 12), "1:12");
}

#[test]
fn timer_runs_only_on_an_active_prompt() {
    let off = TimerSettings::default();
    assert!(!off.timer_enabled());
    assert!(!off.timer_active(true, false, Some(SessionPhase::Prompt)));
    let on = TimerSettings { show_timer: true, ..TimerSettings::default() };
    assert!(on.timer_enabled());
    assert!(on.timer_active(true, false, Some(SessionPhase::Prompt)));
    assert!(!on.timer_active(false, false, Some(SessionPhase::Prompt)));
    assert!(!on.timer_active(true, true, Some(SessionPhase::Prompt)));
    assert!(!on.timer_active(true, false, Some(SessionPhase::Answer)));
    assert!(!on.timer_active(true, false, None));
}

#[test]
fn focus_goes_to_first_offered_action() {
    assert_eq!(focus_target_for_phase(true, flags(true, true, true), None), "session-complete-primary");
    assert_eq!(focus_target_for_phase(true, flags(false, true, true), None), "session-complete-all");
    assert_eq!(
        focus_target_for_phase(true, flags(false, false, true), None),
        "session-complete-mistakes"
    );
    assert_eq!(
        focus_target_for_phase(true, flags(false, false, false), None),
        "session-complete-secondary"
    );
    assert_eq!(
        focus_target_for_phase(false, flags(true, true, true), Some(SessionPhase::Prompt)),
        "session-reveal"
    );
    assert_eq!(
        focus_target_for_phase(false, flags(true, true, true), Some(SessionPhase::Answer)),
        "session-grade-again"
    );
    assert_eq!(focus_target_for_phase(false, flags(true, true, true), None), "session-quit");
}

#[test]
fn focus_cycle_lists_controls_in_order() {
    assert_eq!(
        focus_cycle_ids_for_phase(false, flags(false, false, false), Some(SessionPhase::Answer)),
        vec![
            "session-quit",
            "session-grade-again",
            "session-grade-hard",
            "session-grade-good",
            "session-grade-easy"
        ]
    );
    assert_eq!(
        focus_cycle_ids_for_phase(true, flags(false, false, true), None),
        vec!["session-quit", "session-complete-mistakes", "session-complete-secondary"]
    );
    assert_eq!(
        focus_cycle_ids_for_phase(false, flags(true, true, true), None),
        vec!["session-quit"]
    );
}

#[test]
fn focus_scripts_quote_ids() {
    assert_eq!(
        focus_element_script("session-reveal"),
        "document.getElementById(\"session-reveal\")?.focus();"
    );
    assert_eq!(
        focus_element_script_quoted("\"x\""),
        "document.getElementById(\"x\")?.focus();"
    );
    let forward = focus_cycle_script(&["session-quit", "session-reveal"], false);
    assert!(forward.contains("[\"session-quit\", \"session-reveal\"]"));
    let backward = focus_cycle_script(&["session-quit", "session-reveal"], true);
    assert!(backward.contains("-1"));
    assert_ne!(forward, backward);
}

#[test]
fn completion_flags_follow_counts() {
    assert_eq!(completion_flags(None), flags(true, false, true));
    let counts = PracticeCounts { total: 4, due: 0, new_count: 0, mistakes: 1 };
    assert_eq!(completion_flags(Some(counts)), flags(false, true, true));
    let fresh = PracticeCounts { total: 2, due: 0, new_count: 2, mistakes: 0 };
    assert_eq!(completion_flags(Some(fresh)), flags(true, true, false));
    assert_eq!(completion_flags(Some(PracticeCounts::default())), flags(false, false, false));
}

#[test]
fn footer_labels() {
    assert_eq!(progress_label(3, 10), "3 / 10 Cards");
    assert_eq!(due_label(Some(7)), "Due: 7");
    assert_eq!(due_label(None), "Due: --");
    assert_eq!(context_label(Some("Rust"), Some("ownership")), "Rust \u{b7} Tag: ownership");
    assert_eq!(context_label(Some("Rust"), None), "Rust");
    assert_eq!(context_label(None, Some("ownership")), "Tag: ownership");
    assert_eq!(context_label(None, None), "");
}

#[test]
fn deck_badge_letter() {
    assert_eq!(deck_initial("rust"), "r");
    assert_eq!(deck_initial("Éclair"), "É");
    assert_eq!(deck_initial(""), "?");
}

#[test]
fn empty_session_messages() {
    assert_eq!(empty_session_message(true), "All caught up. No cards due right now.");
    assert_eq!(empty_session_message(false), "No cards available yet. Add some cards first.");
}

#[test]
fn grade_buttons() {
    assert_eq!(
        grade_button_variant(Grade::Again),
        ("session-grade session-grade--again", "session-grade-again")
    );
    assert_eq!(
        grade_button_variant(Grade::Easy),
        ("session-grade session-grade--easy", "session-grade-easy")
    );
}

#[test]
fn session_keys() {
    let prompt = Some(SessionPhase::Prompt);
    let answer = Some(SessionPhase::Answer);
    assert_eq!(session_key_action(&SessionKey::Tab, true, false, None), SessionKeyAction::CycleFocus(true));
    assert_eq!(session_key_action(&SessionKey::Escape, false, true, prompt), SessionKeyAction::LeavePractice);
    assert_eq!(session_key_action(&SessionKey::Space, false, true, prompt), SessionKeyAction::Reveal);
    assert_eq!(session_key_action(&SessionKey::Space, false, true, answer), SessionKeyAction::Ignore);
    assert_eq!(session_key_action(&SessionKey::Space, false, false, prompt), SessionKeyAction::Ignore);
    assert_eq!(
        session_key_action(&SessionKey::Character("3".to_string()), false, true, answer),
        SessionKeyAction::Grade(Grade::Good)
    );
    assert_eq!(
        session_key_action(&SessionKey::Character("1".to_string()), false, true, answer),
        SessionKeyAction::Grade(Grade::Again)
    );
    assert_eq!(
        session_key_action(&SessionKey::Character("5".to_string()), false, true, answer),
        SessionKeyAction::Ignore
    );
    assert_eq!(
        session_key_action(&SessionKey::Character("2".to_string()), false, true, prompt),
        SessionKeyAction::Ignore
    );
    assert_eq!(
        session_key_action(&SessionKey::Character("12".to_string()), false, true, answer),
        SessionKeyAction::Ignore
    );
}

#[test]
fn streak_and_empty_session_actions() {
    assert_eq!(streak_label(Some(4)), "Streak: 4 \u{1f525}");
    assert_eq!(streak_label(None), "Streak: 0 \u{1f525}");
    assert_eq!(empty_session_action(true), ("Back to Practice", EmptySessionTarget::Practice));
    assert_eq!(empty_session_action(false), ("Add Cards", EmptySessionTarget::Editor));
    assert_eq!(completion_note(true), None);
    assert_eq!(completion_note(false), Some("All caught up. No cards due right now."));
}

#[test]
fn finished_session_destinations() {
    assert_eq!(completion_destination(Some(12)), CompletionDestination::Summary(12));
    assert_eq!(completion_destination(None), CompletionDestination::Practice);
    assert_eq!(destination_label(CompletionDestination::Summary(1)), "View Summary");
    assert_eq!(destination_label(CompletionDestination::Practice), "Back to Practice");
}

#[test]
fn retry_repeats_the_last_step() {
    assert_eq!(retry_action(None), LastAction::StartSession);
    assert_eq!(retry_action(Some(LastAction::StartSession)), LastAction::StartSession);
    assert_eq!(retry_action(Some(LastAction::Answer(Grade::Hard))), LastAction::Answer(Grade::Hard));
}

#[test]
fn focus_is_set_again_only_on_change() {
    let mut memory = FocusMemory::new();
    assert!(memory.refocus(Some(SessionPhase::Prompt), false, true));
    assert!(!memory.refocus(Some(SessionPhase::Prompt), false, true));
    assert!(memory.refocus(Some(SessionPhase::Answer), false, true));
    assert!(memory.refocus(Some(SessionPhase::Answer), true, true));
    assert!(memory.refocus(Some(SessionPhase::Answer), true, false));
    assert!(!memory.refocus(Some(SessionPhase::Answer), true, false));
}

#[test]
fn counts_for_a_tag() {
    let stats = vec![
        TagPracticeStat { name: "verbs".to_string(), total: 10, due: 3, new: 2 },
        TagPracticeStat { name: "nouns".to_string(), total: 5, due: 0, new: 1 },
        TagPracticeStat { name: "nouns".to_string(), total: 99, due: 99, new: 99 },
    ];
    assert_eq!(
        practice_counts_for_tag(&stats, "nouns", 4),
        PracticeCounts { total: 5, due: 0, new_count: 1, mistakes: 4 }
    );
    assert_eq!(
        practice_counts_for_tag(&stats, "other", 2),
        PracticeCounts { total: 0, due: 0, new_count: 0, mistakes: 2 }
    );
}

#[test]
fn focus_cycle_from_quoted_ids() {
    let quoted = vec!["\"a\"".to_string(), "\"b\"".to_string()];
    assert_eq!(
        focus_cycle_script_quoted(&quoted, false),
        focus_cycle_script(&["a", "b"], false)
    );
    assert!(focus_cycle_script_quoted(&[], true).contains("const ids = [];"));
}

#[test]
fn focus_script_quotes_ascii_ids_with_std_escapes() {
    assert_eq!(focus_element_script("card-1"), "document.getElementById(\"card-1\")?.focus();");
    assert_eq!(
        focus_element_script("a\"b\\c\nd\re\tf\u{1}g\u{1f}h\u{7f}i'~ "),
        "document.getElementById(\"a\\\"b\\\\c\\nd\\re\\tf\\u{1}g\\u{1f}h\\u{7f}i'~ \")?.focus();"
    );
}
