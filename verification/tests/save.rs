use learn_ui::editor::SaveRequest;
use learn_ui::save::{
    after_duplicate_check, after_save_success, begin_save, AfterDuplicateCheck, AfterSave,
    DuplicateCheck, SaveStart,
};
use learn_ui::settings::deck_name_for_save;

#[test]
fn save_is_ignored_while_busy_or_unchanged() {
    let request = SaveRequest::new(false);
    assert_eq!(begin_save(true, false, true, false, true, None, request), SaveStart::Ignore);
    assert_eq!(begin_save(false, true, true, false, true, None, request), SaveStart::Ignore);
    assert_eq!(begin_save(false, false, false, false, true, None, request), SaveStart::Ignore);
}

#[test]
fn blank_content_shows_validation() {
    let request = SaveRequest::new(false);
    assert_eq!(begin_save(false, false, true, true, true, None, request), SaveStart::ShowValidation);
}

#[test]
fn editing_needs_a_selected_card() {
    let request = SaveRequest::new(true);
    assert_eq!(begin_save(false, false, true, false, false, None, request), SaveStart::Ignore);
    assert_eq!(
        begin_save(false, false, true, false, false, Some(9), request),
        SaveStart::Proceed { editing_id: Some(9), check_duplicates: true, practice: true }
    );
}

#[test]
fn new_card_saves_without_id_and_forced_saves_skip_check() {
    assert_eq!(
        begin_save(false, false, true, false, true, Some(9), SaveRequest::force(false)),
        SaveStart::Proceed { editing_id: None, check_duplicates: false, practice: false }
    );
}

#[test]
fn duplicate_check_answers() {
    assert_eq!(
        after_duplicate_check(DuplicateCheck::Found, true),
        AfterDuplicateCheck::AskToConfirm { practice: true }
    );
    assert_eq!(after_duplicate_check(DuplicateCheck::NotFound, true), AfterDuplicateCheck::Persist);
    assert_eq!(after_duplicate_check(DuplicateCheck::Failed, false), AfterDuplicateCheck::Stop);
}

#[test]
fn what_follows_a_save() {
    assert_eq!(after_save_success(true, true, Some(1)), AfterSave::PracticeDeck);
    assert_eq!(after_save_success(true, false, Some(1)), AfterSave::ClearForNextCard);
    assert_eq!(after_save_success(false, true, Some(4)), AfterSave::ShowSavedCard(4));
    assert_eq!(after_save_success(false, false, None), AfterSave::Nothing);
}

#[test]
fn deck_names_are_trimmed_for_saving() {
    assert_eq!(deck_name_for_save("  Spanish ", false), Some("Spanish".to_string()));
    assert_eq!(deck_name_for_save("   ", false), None);
    assert_eq!(deck_name_for_save("Spanish", true), None);
}
