use learn_ui::discard::{has_unsaved_changes, DiscardGuard, LoadedCard, PendingAction, SaveMenuState};
use learn_ui::editor::MarkdownField;
use learn_ui::link::LinkEditorState;
use learn_ui::writing_tools::{
    WritingToolsCommand, WritingToolsMenuState, WritingToolsRequest, WritingToolsResultStatus, WritingToolsTone,
};

#[test]
fn request_without_changes_runs_now() {
    let mut guard: DiscardGuard<u32> = DiscardGuard::new();
    guard.show_deck_menu = true;
    assert_eq!(guard.request(PendingAction::SelectCard(7), false), Some(PendingAction::SelectCard(7)));
    assert_eq!(guard.pending_action, None);
    assert!(!guard.show_unsaved_modal);
    assert!(guard.show_deck_menu);
}

#[test]
fn request_with_changes_waits_for_answer() {
    let mut guard: DiscardGuard<u32> = DiscardGuard::new();
    guard.show_deck_menu = true;
    guard.save_menu_state = SaveMenuState::Open;
    guard.writing_tools_menu_state = WritingToolsMenuState::Open(MarkdownField::Back);
    guard.writing_tools_result_status = WritingToolsResultStatus::Ready;
    assert_eq!(guard.request(PendingAction::SelectDeck(3), true), None);
    assert_eq!(guard.pending_action, Some(PendingAction::SelectDeck(3)));
    assert!(guard.show_unsaved_modal);
    assert!(!guard.show_deck_menu);
    assert_eq!(guard.save_menu_state, SaveMenuState::Open);
    assert_eq!(guard.confirm_discard(), Some(PendingAction::SelectDeck(3)));
    assert!(!guard.show_unsaved_modal);
    assert_eq!(guard.save_menu_state, SaveMenuState::Closed);
    assert_eq!(guard.writing_tools_menu_state, WritingToolsMenuState::Closed);
    assert_eq!(guard.writing_tools_result_status, WritingToolsResultStatus::Idle);
    assert_eq!(guard.confirm_discard(), None);
}

#[test]
fn new_card_request_closes_save_menu() {
    let mut guard: DiscardGuard<u32> = DiscardGuard::new();
    guard.save_menu_state = SaveMenuState::Open;
    assert_eq!(guard.request(PendingAction::NewCard, true), None);
    assert_eq!(guard.save_menu_state, SaveMenuState::Closed);
}

#[test]
fn cancel_drops_the_request() {
    let mut guard: DiscardGuard<u32> = DiscardGuard::new();
    guard.request(PendingAction::NewCard, true);
    guard.cancel_discard();
    assert_eq!(guard.pending_action, None);
    assert!(!guard.show_unsaved_modal);
    assert_eq!(guard.confirm_discard(), None);
}

fn strings(v: &[&str]) -> Vec<String> {
    v.iter().map(|s| s.to_string()).collect()
}

#[test]
fn no_card_open_means_nothing_unsaved() {
    assert!(!has_unsaved_changes(false, false, "<p>x</p>", "", false, true, &[], None, &[]));
}

#[test]
fn new_card_is_unsaved_once_it_holds_anything() {
    assert!(!has_unsaved_changes(true, false, "<p></p>", "", true, true, &[], None, &[]));
    assert!(has_unsaved_changes(true, false, "<p>a</p>", "", false, true, &[], None, &[]));
    assert!(has_unsaved_changes(true, false, "", "", true, true, &strings(&["tag"]), None, &[]));
}

#[test]
fn loaded_card_compares_trimmed_sides_and_tags() {
    let card = LoadedCard { prompt_html: "<p>Q</p>".to_string(), answer_html: "<p>A</p>".to_string() };
    let tags = strings(&["a", "b"]);
    let reordered = strings(&["b", "a"]);
    assert!(!has_unsaved_changes(false, true, " <p>Q</p>\n", "<p>A</p>", false, false, &reordered, Some(&card), &tags));
    assert!(has_unsaved_changes(false, true, "<p>Q2</p>", "<p>A</p>", false, false, &tags, Some(&card), &tags));
    assert!(has_unsaved_changes(false, true, "<p>Q</p>", "<p>A</p>", false, false, &strings(&["a"]), Some(&card), &tags));
    assert!(!has_unsaved_changes(false, true, "", "", true, true, &[], None, &[]));
}

#[test]
fn either_answer_closes_link_editor_and_writing_tools_request() {
    for confirm in [true, false] {
        let mut guard: DiscardGuard<u32> = DiscardGuard::new();
        guard.link_editor_state = Some(LinkEditorState { field: MarkdownField::Front, url: "https://x".to_string() });
        guard.writing_tools_result_target = Some(MarkdownField::Back);
        guard.writing_tools_request = Some(WritingToolsRequest::new(
            MarkdownField::Back,
            WritingToolsCommand::Summary,
            WritingToolsTone::Clear,
            String::new(),
            "text".to_string(),
        ));
        guard.request(PendingAction::SelectCard(4), true);
        if confirm {
            assert_eq!(guard.confirm_discard(), Some(PendingAction::SelectCard(4)));
        } else {
            guard.cancel_discard();
        }
        assert_eq!(guard.link_editor_state, None);
        assert_eq!(guard.writing_tools_result_target, None);
        assert!(guard.writing_tools_request.is_none());
        assert_eq!(guard.pending_action, None);
    }
}
