use learn_ui::practice::{practice_empty_message, practice_focus_hint, PracticeDeckMenus, PracticeResetState};

#[test]
fn practice_texts() {
    assert_eq!(practice_empty_message(false), "No decks yet. Create a deck to start practicing.");
    assert_eq!(practice_empty_message(true), "No decks match that search.");
    assert_eq!(
        practice_focus_hint(Some("Rust")),
        Some("Focused on Rust. Pick a practice option.".to_string())
    );
    assert_eq!(practice_focus_hint(None), None);
}

#[test]
fn practice_deck_menu_and_reset_dialog() {

    let mut m = PracticeDeckMenus::new();
    m.toggle_menu(3);
    assert_eq!(m.open_menu, Some(3));
    m.toggle_menu(4);
    assert_eq!(m.open_menu, Some(4));
    m.toggle_menu(4);
    assert_eq!(m.open_menu, None);
    assert_eq!(m.begin_reset(), None);
    m.toggle_menu(4);
    m.open_reset(4);
    assert_eq!(m.open_menu, None);
    assert_eq!(m.reset_target, Some(4));
    assert_eq!(m.reset_state, PracticeResetState::Idle);
    assert_eq!(m.begin_reset(), Some(4));
    assert_eq!(m.reset_state, PracticeResetState::Resetting);
    assert_eq!(m.begin_reset(), None);
    m.reset_finished(false);
    assert_eq!(m.reset_state, PracticeResetState::Error);
    assert_eq!(m.reset_target, Some(4));
    assert_eq!(m.begin_reset(), Some(4));
    m.reset_finished(true);
    assert_eq!(m, PracticeDeckMenus { open_menu: None, reset_target: None, reset_state: PracticeResetState::Idle });
    m.open_reset(9);
    m.close_reset();
    assert_eq!(m.reset_target, None);
    assert_eq!(m.reset_state, PracticeResetState::Idle);
    m.toggle_menu(2);
    m.close_menu();
    assert_eq!(m.open_menu, None);
}
