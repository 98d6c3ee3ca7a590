use learn_ui::editor::{
    focus_editable_script, paste_choice, sort_from_value, sort_value, CardListSort, PasteChoice,
    current_deck_label, editor_key_action, element_id_for, format_script, undo_redo_script,
    DeckOption, EditorKey, EditorKeyAction, EditorKeyContext, KeyModifiers, MarkdownAction,
    MarkdownField, SaveRequest,
};
use learn_ui::platform::url_to_open;
use learn_ui::scripts::{exec_command_script, wrap_selection_script};

fn meta() -> KeyModifiers {
    KeyModifiers { control: false, meta: true, shift: false }
}

fn none() -> KeyModifiers {
    KeyModifiers { control: false, meta: false, shift: false }
}

fn editing() -> EditorKeyContext {
    EditorKeyContext {
        is_create_mode: false,
        has_selected_card: true,
        is_deleting: false,
        decks_ready: true,
        last_focus_field: MarkdownField::Back,
    }
}

fn ch(s: &str) -> EditorKey {
    EditorKey::Character(s.to_string())
}

#[test]
fn fields_map_to_elements() {
    assert_eq!(element_id_for(MarkdownField::Front), "prompt");
    assert_eq!(element_id_for(MarkdownField::Back), "answer");
}

#[test]
fn format_scripts_use_commands_and_wraps() {
    assert_eq!(
        format_script(MarkdownField::Front, MarkdownAction::Bold),
        exec_command_script("prompt", "bold", None)
    );
    assert_eq!(
        format_script(MarkdownField::Back, MarkdownAction::Link),
        exec_command_script("answer", "createLink", Some("https://"))
    );
    assert_eq!(
        format_script(MarkdownField::Back, MarkdownAction::Quote),
        exec_command_script("answer", "formatBlock", Some("blockquote"))
    );
    assert_eq!(
        format_script(MarkdownField::Front, MarkdownAction::NumberedList),
        exec_command_script("prompt", "insertOrderedList", None)
    );
    assert_eq!(
        format_script(MarkdownField::Front, MarkdownAction::CodeBlock),
        wrap_selection_script("prompt", "pre", Some("code"))
    );
    assert_eq!(
        format_script(MarkdownField::Back, MarkdownAction::Code),
        wrap_selection_script("answer", "code", None)
    );
}

#[test]
fn undo_and_redo_scripts() {
    assert_eq!(
        undo_redo_script(MarkdownField::Front, false),
        exec_command_script("prompt", "undo", None)
    );
    assert_eq!(
        undo_redo_script(MarkdownField::Back, true),
        exec_command_script("answer", "redo", None)
    );
}

#[test]
fn editor_undo_redo_keys() {
    let ctrl = KeyModifiers { control: true, meta: false, shift: false };
    let ctrl_shift = KeyModifiers { control: true, meta: false, shift: true };
    assert_eq!(
        editor_key_action(&ch("z"), ctrl, editing()),
        EditorKeyAction::UndoRedo(MarkdownField::Back, false)
    );
    assert_eq!(
        editor_key_action(&ch("Z"), ctrl_shift, editing()),
        EditorKeyAction::UndoRedo(MarkdownField::Back, true)
    );
    assert_eq!(
        editor_key_action(&ch("y"), meta(), editing()),
        EditorKeyAction::UndoRedo(MarkdownField::Back, true)
    );
    assert_eq!(editor_key_action(&ch("z"), none(), editing()), EditorKeyAction::Ignore);
}

#[test]
fn editor_command_shortcuts() {
    assert_eq!(editor_key_action(&EditorKey::Enter, meta(), editing()), EditorKeyAction::Save);
    assert_eq!(editor_key_action(&ch("N"), meta(), editing()), EditorKeyAction::NewCard);
    assert_eq!(
        editor_key_action(&EditorKey::Backspace, meta(), editing()),
        EditorKeyAction::OpenDeleteModal
    );
    let deleting = EditorKeyContext { is_deleting: true, ..editing() };
    assert_eq!(editor_key_action(&EditorKey::Backspace, meta(), deleting), EditorKeyAction::Ignore);
    assert_eq!(editor_key_action(&ch("r"), meta(), editing()), EditorKeyAction::BeginRename);
    let loading = EditorKeyContext { decks_ready: false, ..editing() };
    assert_eq!(editor_key_action(&ch("r"), meta(), loading), EditorKeyAction::Ignore);
}

#[test]
fn editor_format_shortcuts() {
    assert_eq!(
        editor_key_action(&ch("b"), meta(), editing()),
        EditorKeyAction::Format(MarkdownField::Back, MarkdownAction::Bold)
    );
    assert_eq!(
        editor_key_action(&ch("I"), meta(), editing()),
        EditorKeyAction::Format(MarkdownField::Back, MarkdownAction::Italic)
    );
    assert_eq!(
        editor_key_action(&ch("k"), meta(), editing()),
        EditorKeyAction::OpenLinkEditor(MarkdownField::Back)
    );
    let meta_shift = KeyModifiers { control: false, meta: true, shift: true };
    assert_eq!(
        editor_key_action(&ch("7"), meta_shift, editing()),
        EditorKeyAction::Format(MarkdownField::Back, MarkdownAction::NumberedList)
    );
    assert_eq!(
        editor_key_action(&ch("8"), meta_shift, editing()),
        EditorKeyAction::Format(MarkdownField::Back, MarkdownAction::BulletList)
    );
    assert_eq!(editor_key_action(&ch("8"), meta(), editing()), EditorKeyAction::Ignore);
    let idle = EditorKeyContext { has_selected_card: false, ..editing() };
    assert_eq!(editor_key_action(&ch("b"), meta(), idle), EditorKeyAction::Ignore);
}

#[test]
fn editor_escape_and_tab() {
    let creating = EditorKeyContext { is_create_mode: true, has_selected_card: false, ..editing() };
    assert_eq!(editor_key_action(&EditorKey::Escape, none(), creating), EditorKeyAction::CancelNew);
    assert_eq!(editor_key_action(&EditorKey::Escape, none(), editing()), EditorKeyAction::Ignore);
    assert_eq!(editor_key_action(&EditorKey::Tab, meta(), creating), EditorKeyAction::Ignore);
    assert_eq!(editor_key_action(&ch("é"), meta(), editing()), EditorKeyAction::Ignore);
}

#[test]
fn deck_label_of_selected_deck() {
    let options = vec![
        DeckOption { id: 1, label: "Default".to_string() },
        DeckOption { id: 7, label: "Rust".to_string() },
        DeckOption { id: 7, label: "Later".to_string() },
    ];
    assert_eq!(current_deck_label(Some(&options), 7), "Rust");
    assert_eq!(current_deck_label(Some(&options), 9), "Deck");
    assert_eq!(current_deck_label(None, 1), "Deck");
}

#[test]
fn save_requests() {
    let plain = SaveRequest::new(true);
    assert!(plain.practice && !plain.skip_duplicate_check);
    let forced = SaveRequest::force(false);
    assert!(!forced.practice && forced.skip_duplicate_check);
}

#[test]
fn links_open_trimmed() {
    assert_eq!(url_to_open("  https://a.b \n"), Some("https://a.b".to_string()));
    assert_eq!(url_to_open("   "), None);
    assert_eq!(url_to_open(""), None);
}

#[test]
fn sort_value_round_trip() {
    for sort in [CardListSort::Recent, CardListSort::Created, CardListSort::Alpha] {
        let value = sort_value(sort);
        assert_eq!(sort_from_value(value), sort);
    }
    assert_eq!(sort_from_value("unknown"), CardListSort::Recent);
}

#[test]
fn focus_script_names_the_side() {
    assert_eq!(focus_editable_script(MarkdownField::Back), "document.getElementById(\"answer\")?.focus();");
}

#[test]
fn paste_prefers_html_then_markdown_then_text() {
    assert_eq!(paste_choice("  <b>x</b> ", "x", true), PasteChoice::Html("<b>x</b>".to_string()));
    assert_eq!(paste_choice("  ", "# Title", true), PasteChoice::Markdown);
    assert_eq!(paste_choice("", " plain ", false), PasteChoice::Text);
    assert_eq!(paste_choice("", "", false), PasteChoice::Nothing);
}
