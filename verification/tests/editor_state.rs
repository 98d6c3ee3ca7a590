use learn_ui::discard::{PendingAction, SaveMenuState};
use learn_ui::editor::{MarkdownField, SaveRequest};
use learn_ui::editor_state::{DeleteState, DuplicateCheckState, EditorState, ResetDeckState, SaveState};
use learn_ui::link::LinkEditorState;
use learn_ui::save::{AfterDuplicateCheck, AfterSave, DuplicateCheck, SaveStart};
use learn_ui::selection::{CancelNew, CardsLoaded};
use learn_ui::writing_tools::{WritingToolsMenuState, WritingToolsResultStatus};

fn editor() -> EditorState<&'static str> {
    EditorState::new(1)
}

fn tags(v: &[&str]) -> Vec<String> {
    v.iter().map(|s| s.to_string()).collect()
}

#[test]
fn new_editor_is_idle() {
    let e = editor();
    assert_eq!(e.selected_deck, 1);
    assert_eq!(e.selection.selected_card_id, None);
    assert!(!e.selection.is_create_mode);
    assert_eq!(e.panels.save_state, SaveState::Idle);
    assert_eq!(e.panels.last_focus_field, MarkdownField::Front);
    assert_eq!(e.guard.pending_action, None);
    assert!(e.tag_filters.is_empty());
}

#[test]
fn selecting_a_card_resets_forms_and_dialogs() {
    let mut e = editor();
    e.panels.tag_input = "ta".to_string();
    e.panels.save_state = SaveState::Error;
    e.panels.show_duplicate_modal = true;
    e.panels.pending_duplicate_practice = true;
    e.panels.is_renaming_deck = true;
    e.panels.rename_deck_error = Some("x".to_string());
    e.panels.show_new_deck = true;
    e.guard.show_deck_menu = true;
    e.guard.request(PendingAction::NewCard, true);
    e.select_card(5, "card five");
    assert_eq!(e.selection.selected_card_id, Some(5));
    assert_eq!(e.selection.last_selected, Some((5, "card five")));
    assert!(e.panels.tag_input.is_empty());
    assert_eq!(e.panels.save_state, SaveState::Idle);
    assert!(!e.panels.show_duplicate_modal);
    assert!(!e.panels.pending_duplicate_practice);
    assert!(!e.panels.is_renaming_deck);
    assert_eq!(e.panels.rename_deck_error, None);
    assert!(!e.panels.show_new_deck);
    assert!(!e.guard.show_deck_menu);
    assert_eq!(e.guard.pending_action, None);
    assert!(!e.guard.show_unsaved_modal);
}

#[test]
fn new_card_focuses_prompt_and_closes_save_menu() {
    let mut e = editor();
    e.select_card(5, "five");
    e.guard.save_menu_state = SaveMenuState::Open;
    e.panels.new_deck_name = "Deck".to_string();
    e.panels.last_focus_field = MarkdownField::Back;
    e.new_card();
    assert!(e.selection.is_create_mode);
    assert_eq!(e.selection.selected_card_id, None);
    assert_eq!(e.selection.last_selected, Some((5, "five")));
    assert!(e.panels.focus_prompt);
    assert_eq!(e.panels.last_focus_field, MarkdownField::Front);
    assert_eq!(e.guard.save_menu_state, SaveMenuState::Closed);
    assert!(e.panels.new_deck_name.is_empty());
}

#[test]
fn cancel_new_goes_back_and_drops_the_waiting_request() {
    let mut e = editor();
    e.select_card(5, "five");
    e.selection.card_tags = tags(&["a"]);
    e.selection.last_selected_tags = tags(&["a"]);
    e.new_card();
    e.selection.card_tags = tags(&["b"]);
    e.guard.request(PendingAction::SelectDeck(9), true);
    assert!(e.guard.show_unsaved_modal);
    assert_eq!(e.cancel_new(), CancelNew::RestoreLastCard);
    assert_eq!(e.selection.selected_card_id, Some(5));
    assert!(!e.selection.is_create_mode);
    assert_eq!(e.selection.card_tags, tags(&["a"]));
    assert_eq!(e.guard.pending_action, None);
    assert!(!e.guard.show_unsaved_modal);
}

#[test]
fn cancel_new_without_a_previous_card_clears_the_form() {
    let mut e = editor();
    e.new_card();
    e.selection.card_tags = tags(&["b"]);
    assert_eq!(e.cancel_new(), CancelNew::ClearForm);
    assert!(e.selection.is_create_mode);
    assert!(e.selection.card_tags.is_empty());
}

#[test]
fn cancel_new_when_not_creating_changes_nothing() {
    let mut e = editor();
    e.select_card(5, "five");
    e.guard.request(PendingAction::NewCard, true);
    assert_eq!(e.cancel_new(), CancelNew::NotCreating);
    assert_eq!(e.guard.pending_action, Some(PendingAction::NewCard));
    assert!(e.guard.show_unsaved_modal);
}

#[test]
fn selecting_a_deck_forgets_everything() {
    let mut e = editor();
    e.select_card(5, "five");
    e.tag_filters = tags(&["x"]);
    e.panels.show_deck_actions = true;
    e.select_deck(7);
    assert_eq!(e.selected_deck, 7);
    assert_eq!(e.selection.last_selected, None);
    assert!(e.tag_filters.is_empty());
    assert!(!e.panels.show_deck_actions);
}

#[test]
fn discard_answers_hand_back_or_drop_the_request() {
    let mut e = editor();
    assert_eq!(e.request(PendingAction::SelectCard("two"), false), Some(PendingAction::SelectCard("two")));
    assert_eq!(e.request(PendingAction::SelectCard("two"), true), None);
    e.guard.link_editor_state = Some(LinkEditorState { field: MarkdownField::Back, url: "https://".to_string() });
    assert_eq!(e.confirm_discard(), Some(PendingAction::SelectCard("two")));
    assert_eq!(e.guard.link_editor_state, None);
    assert!(!e.guard.show_unsaved_modal);
    e.request(PendingAction::NewCard, true);
    e.cancel_discard();
    assert_eq!(e.guard.pending_action, None);
}

#[test]
fn delete_modal_needs_an_open_card() {
    let mut e = editor();
    e.open_delete_modal();
    assert!(!e.panels.show_delete_modal);
    e.select_card(3, "three");
    e.guard.save_menu_state = SaveMenuState::Open;
    e.guard.writing_tools_menu_state = WritingToolsMenuState::Open(MarkdownField::Front);
    e.guard.link_editor_state = Some(LinkEditorState { field: MarkdownField::Front, url: "u".to_string() });
    e.panels.is_renaming_deck = true;
    e.open_delete_modal();
    assert!(e.panels.show_delete_modal);
    assert_eq!(e.guard.save_menu_state, SaveMenuState::Closed);
    assert_eq!(e.guard.writing_tools_menu_state, WritingToolsMenuState::Closed);
    assert_eq!(e.guard.link_editor_state, None);
    assert!(!e.panels.is_renaming_deck);
    e.close_delete_modal();
    assert!(!e.panels.show_delete_modal);
}

#[test]
fn save_menu_toggles_and_closes_the_rest() {
    let mut e = editor();
    e.panels.show_delete_modal = true;
    e.guard.writing_tools_result_status = WritingToolsResultStatus::Ready;
    e.toggle_save_menu();
    assert_eq!(e.guard.save_menu_state, SaveMenuState::Open);
    assert!(!e.panels.show_delete_modal);
    assert_eq!(e.guard.writing_tools_result_status, WritingToolsResultStatus::Idle);
    e.toggle_save_menu();
    assert_eq!(e.guard.save_menu_state, SaveMenuState::Closed);
    e.toggle_save_menu();
    e.close_save_menu();
    assert_eq!(e.guard.save_menu_state, SaveMenuState::Closed);
}

#[test]
fn writing_tools_button_opens_then_closes() {
    let mut e = editor();
    e.guard.save_menu_state = SaveMenuState::Open;
    e.guard.show_deck_menu = true;
    e.panels.show_new_deck = true;
    e.panels.new_deck_state = SaveState::Error;
    e.guard.writing_tools_result_target = Some(MarkdownField::Back);
    assert!(e.toggle_writing_tools(MarkdownField::Front));
    assert_eq!(e.guard.writing_tools_menu_state, WritingToolsMenuState::Open(MarkdownField::Front));
    assert_eq!(e.guard.save_menu_state, SaveMenuState::Closed);
    assert!(!e.guard.show_deck_menu);
    assert!(!e.panels.show_new_deck);
    assert_eq!(e.panels.new_deck_state, SaveState::Idle);
    assert_eq!(e.guard.writing_tools_result_target, None);
    e.writing_tools_selection_read(Some(("<b>x</b>".to_string(), "x".to_string())));
    assert_eq!(e.panels.writing_tools_selection_text, "x");
    assert!(!e.toggle_writing_tools(MarkdownField::Front));
    assert_eq!(e.guard.writing_tools_menu_state, WritingToolsMenuState::Closed);
    assert!(e.panels.writing_tools_selection_html.is_empty());
    assert!(e.panels.writing_tools_selection_text.is_empty());
    assert!(e.toggle_writing_tools(MarkdownField::Back));
    e.writing_tools_selection_read(None);
    assert!(e.panels.writing_tools_selection_text.is_empty());
}

#[test]
fn delete_flow() {
    let mut e = editor();
    assert_eq!(e.begin_delete(), None);
    e.select_card(8, "eight");
    e.panels.show_delete_modal = true;
    e.panels.save_state = SaveState::Error;
    assert_eq!(e.begin_delete(), Some(8));
    assert_eq!(e.panels.delete_state, DeleteState::Deleting);
    assert_eq!(e.panels.save_state, SaveState::Idle);
    assert!(!e.panels.show_delete_modal);
    assert_eq!(e.begin_delete(), None);
    e.delete_finished(true);
    assert_eq!(e.panels.delete_state, DeleteState::Success);
    assert_eq!(e.selection.selected_card_id, None);
    assert_eq!(e.selection.last_selected, None);
    e.delete_notice_expired();
    assert_eq!(e.panels.delete_state, DeleteState::Idle);
}

#[test]
fn failed_delete_shows_the_error() {
    let mut e = editor();
    e.select_card(8, "eight");
    e.begin_delete();
    e.delete_finished(false);
    assert_eq!(e.panels.delete_state, DeleteState::Error);
    assert_eq!(e.selection.selected_card_id, Some(8));
    e.delete_notice_expired();
    assert_eq!(e.panels.delete_state, DeleteState::Error);
}

#[test]
fn create_deck_flow() {
    let mut e = editor();
    e.panels.new_deck_name = "   ".to_string();
    assert_eq!(e.begin_create_deck(), None);
    assert_eq!(e.panels.new_deck_state, SaveState::Idle);
    e.panels.new_deck_name = "  Spanish  ".to_string();
    e.panels.show_new_deck = true;
    assert_eq!(e.begin_create_deck(), Some("Spanish".to_string()));
    assert_eq!(e.panels.new_deck_state, SaveState::Saving);
    assert_eq!(e.begin_create_deck(), None);
    e.select_card(2, "two");
    e.panels.new_deck_state = SaveState::Saving;
    e.create_deck_finished(Some(42));
    assert_eq!(e.selected_deck, 42);
    assert!(e.selection.is_create_mode);
    assert_eq!(e.selection.last_selected, None);
    assert!(e.panels.new_deck_name.is_empty());
    assert!(!e.panels.show_new_deck);
    assert_eq!(e.panels.new_deck_state, SaveState::Success);
}

#[test]
fn failed_deck_creation_keeps_the_form() {
    let mut e = editor();
    e.panels.new_deck_name = "Deck".to_string();
    e.begin_create_deck();
    e.create_deck_finished(None);
    assert_eq!(e.panels.new_deck_state, SaveState::Error);
    assert_eq!(e.selected_deck, 1);
    assert_eq!(e.panels.new_deck_name, "Deck");
}

#[test]
fn rename_flow() {
    let mut e = editor();
    e.guard.show_deck_menu = true;
    e.begin_rename("Old".to_string());
    assert!(e.panels.is_renaming_deck);
    assert_eq!(e.panels.rename_deck_name, "Old");
    assert!(!e.guard.show_deck_menu);
    e.panels.rename_deck_name = "  ".to_string();
    assert_eq!(e.begin_commit_rename(), None);
    assert_eq!(e.panels.rename_deck_error, Some("Name cannot be empty.".to_string()));
    e.panels.rename_deck_name = " New ".to_string();
    assert_eq!(e.begin_commit_rename(), Some("New".to_string()));
    assert_eq!(e.panels.rename_deck_state, SaveState::Saving);
    assert_eq!(e.panels.rename_deck_error, None);
    e.rename_finished(true);
    assert_eq!(e.panels.rename_deck_state, SaveState::Success);
    assert!(!e.panels.is_renaming_deck);
}

#[test]
fn failed_rename_message_runs_out() {
    let mut e = editor();
    e.begin_rename("Old".to_string());
    e.begin_commit_rename();
    e.rename_finished(false);
    assert_eq!(e.panels.rename_deck_state, SaveState::Error);
    assert_eq!(e.panels.rename_deck_error, Some("Rename failed. Please try again.".to_string()));
    assert!(e.panels.is_renaming_deck);
    e.rename_error_expired();
    assert_eq!(e.panels.rename_deck_error, None);
    e.panels.rename_deck_error = Some("Name cannot be empty.".to_string());
    e.rename_error_expired();
    assert_eq!(e.panels.rename_deck_error, Some("Name cannot be empty.".to_string()));
    e.cancel_rename();
    assert!(!e.panels.is_renaming_deck);
    assert!(e.panels.rename_deck_name.is_empty());
    assert_eq!(e.panels.rename_deck_error, None);
}

#[test]
fn reset_deck_flow() {
    let mut e = editor();
    e.panels.is_renaming_deck = true;
    e.panels.reset_deck_state = ResetDeckState::Error;
    e.open_reset_deck_modal();
    assert!(e.panels.show_reset_deck_modal);
    assert_eq!(e.panels.reset_deck_state, ResetDeckState::Idle);
    assert!(!e.panels.is_renaming_deck);
    assert_eq!(e.begin_reset(), 1);
    assert_eq!(e.panels.reset_deck_state, ResetDeckState::Resetting);
    e.reset_finished(false);
    assert_eq!(e.panels.reset_deck_state, ResetDeckState::Error);
    assert!(e.panels.show_reset_deck_modal);
    e.reset_finished(true);
    assert_eq!(e.panels.reset_deck_state, ResetDeckState::Success);
    assert!(!e.panels.show_reset_deck_modal);
    e.open_reset_deck_modal();
    e.close_reset_deck_modal();
    assert!(!e.panels.show_reset_deck_modal);
    assert_eq!(e.panels.reset_deck_state, ResetDeckState::Idle);
}

#[test]
fn save_request_starts_check_or_write() {
    let mut e = editor();
    e.new_card();
    assert_eq!(e.request_save(false, false, SaveRequest::new(false)), SaveStart::Ignore);
    assert_eq!(e.request_save(true, true, SaveRequest::new(false)), SaveStart::ShowValidation);
    assert!(e.panels.show_validation);
    e.guard.save_menu_state = SaveMenuState::Open;
    let start = e.request_save(true, false, SaveRequest::new(true));
    assert_eq!(start, SaveStart::Proceed { editing_id: None, check_duplicates: true, practice: true });
    assert_eq!(e.panels.duplicate_check_state, DuplicateCheckState::Checking);
    assert_eq!(e.guard.save_menu_state, SaveMenuState::Closed);
    assert_eq!(e.request_save(true, false, SaveRequest::new(true)), SaveStart::Ignore);
    assert_eq!(e.duplicate_check_finished(DuplicateCheck::NotFound, true), AfterDuplicateCheck::Persist);
    assert_eq!(e.panels.save_state, SaveState::Saving);
    assert_eq!(e.request_save(true, false, SaveRequest::force(true)), SaveStart::Ignore);
}

#[test]
fn duplicate_found_then_confirmed_saves_without_check() {
    let mut e = editor();
    e.new_card();
    e.request_save(true, false, SaveRequest::new(true));
    assert_eq!(
        e.duplicate_check_finished(DuplicateCheck::Found, true),
        AfterDuplicateCheck::AskToConfirm { practice: true }
    );
    assert!(e.panels.show_duplicate_modal);
    assert!(e.panels.pending_duplicate_practice);
    let again = e.confirm_duplicate();
    assert_eq!(again, SaveRequest::force(true));
    assert!(!e.panels.show_duplicate_modal);
    assert!(!e.panels.pending_duplicate_practice);
    let start = e.request_save(true, false, again);
    assert_eq!(start, SaveStart::Proceed { editing_id: None, check_duplicates: false, practice: true });
    assert_eq!(e.panels.save_state, SaveState::Saving);
}

#[test]
fn duplicate_check_failure_and_closing_the_dialog() {
    let mut e = editor();
    e.new_card();
    e.request_save(true, false, SaveRequest::new(false));
    assert_eq!(e.duplicate_check_finished(DuplicateCheck::Failed, false), AfterDuplicateCheck::Stop);
    assert_eq!(e.panels.duplicate_check_state, DuplicateCheckState::Error);
    e.panels.show_duplicate_modal = true;
    e.close_duplicate_modal();
    assert!(!e.panels.show_duplicate_modal);
    assert_eq!(e.panels.duplicate_check_state, DuplicateCheckState::Idle);
}

#[test]
fn saving_a_new_card_clears_for_the_next() {
    let mut e = editor();
    e.new_card();
    e.selection.card_tags = tags(&["t"]);
    e.panels.tag_input = "x".to_string();
    e.panels.delete_state = DeleteState::Error;
    e.guard.save_menu_state = SaveMenuState::Open;
    assert_eq!(e.save_succeeded(false, Some((11, "eleven"))), AfterSave::ClearForNextCard);
    assert_eq!(e.panels.save_state, SaveState::Success);
    assert_eq!(e.panels.delete_state, DeleteState::Idle);
    assert!(e.panels.tag_input.is_empty());
    assert_eq!(e.guard.save_menu_state, SaveMenuState::Closed);
    assert!(e.selection.card_tags.is_empty());
    assert!(e.panels.focus_prompt);
}

#[test]
fn saving_a_new_card_to_practise_opens_a_session() {
    let mut e = editor();
    e.new_card();
    e.selection.card_tags = tags(&["t"]);
    assert_eq!(e.save_succeeded(true, Some((11, "eleven"))), AfterSave::PracticeDeck);
    assert_eq!(e.selection.card_tags, tags(&["t"]));
}

#[test]
fn saving_an_edited_card_keeps_it_open() {
    let mut e = editor();
    e.select_card(4, "four");
    e.selection.card_tags = tags(&["a", "b"]);
    assert_eq!(e.save_succeeded(false, Some((4, "four saved"))), AfterSave::ShowSavedCard(4));
    assert_eq!(e.selection.selected_card_id, Some(4));
    assert_eq!(e.selection.last_selected, Some((4, "four saved")));
    assert_eq!(e.selection.last_selected_tags, tags(&["a", "b"]));
    assert!(e.panels.focus_prompt);
    e.save_failed();
    assert_eq!(e.panels.save_state, SaveState::Error);
}

#[test]
fn empty_card_list_starts_a_new_card() {
    let mut e = editor();
    e.select_card(3, "three");
    e.panels.save_state = SaveState::Error;
    e.guard.request(PendingAction::NewCard, true);
    assert_eq!(e.cards_loaded(0), CardsLoaded::StartNew);
    assert!(e.selection.is_create_mode);
    assert_eq!(e.selection.last_selected, None);
    assert_eq!(e.panels.save_state, SaveState::Idle);
    assert!(e.panels.focus_prompt);
    assert_eq!(e.guard.pending_action, None);
    assert_eq!(e.cards_loaded(0), CardsLoaded::Nothing);
    let mut f = editor();
    assert_eq!(f.cards_loaded(4), CardsLoaded::SelectFirst);
    assert!(!f.selection.is_create_mode);
}
