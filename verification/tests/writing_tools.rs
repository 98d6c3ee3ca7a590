use learn_ui::editor::MarkdownField;
use learn_ui::writing_tools::{
    menu_open_for, result_open_for, WritingToolsResultStatus,
    build_writing_tools_prompt, build_writing_tools_result_title, normalize_writing_tools_html,
    pick_writing_tools_source, toggle_writing_tools_menu, writing_tools_command_label,
    writing_tools_replacement, WritingToolsCommand, WritingToolsMenuState, WritingToolsRequest,
    WritingToolsTone,
};

#[test]
fn html_unwraps_a_single_paragraph() {
    assert_eq!(normalize_writing_tools_html("  <p>Hello</p> \n"), "Hello");
}

#[test]
fn html_keeps_several_paragraphs() {
    assert_eq!(
        normalize_writing_tools_html("<p>One</p><p>Two</p>"),
        "<p>One</p><p>Two</p>"
    );
}

#[test]
fn html_cuts_empty_paragraphs_and_breaks_at_edges() {
    assert_eq!(
        normalize_writing_tools_html("<p><br></p>\n<br><p>Text</p><br> <p><br></p>"),
        "Text"
    );
    assert_eq!(normalize_writing_tools_html("<br><br>a<br>b<br>"), "a<br>b");
    assert_eq!(normalize_writing_tools_html("<p><br></p>"), "");
    assert_eq!(normalize_writing_tools_html("   "), "");
}

#[test]
fn html_without_wrapping_is_only_trimmed() {
    assert_eq!(normalize_writing_tools_html("  plain <b>text</b> "), "plain <b>text</b>");
    assert_eq!(normalize_writing_tools_html("<p>open only"), "<p>open only");
}

#[test]
fn command_labels() {
    assert_eq!(writing_tools_command_label(WritingToolsCommand::ImproveWording), "Improve wording");
    assert_eq!(writing_tools_command_label(WritingToolsCommand::KeyPoints), "Key points");
    assert_eq!(
        writing_tools_command_label(WritingToolsCommand::TurnIntoQuestion),
        "Turn into question"
    );
}

#[test]
fn result_title_is_tone_for_rewrites() {
    assert_eq!(
        build_writing_tools_result_title(WritingToolsCommand::ImproveWording, WritingToolsTone::Formal),
        "Formal"
    );
    assert_eq!(
        build_writing_tools_result_title(WritingToolsCommand::Summary, WritingToolsTone::Formal),
        "Summary"
    );
}

#[test]
fn prompt_lists_tone_action_constraints_and_text() {
    let prompt = build_writing_tools_prompt(
        WritingToolsCommand::Simplify,
        WritingToolsTone::Simple,
        "  keep it short ",
        "\n Some text. \n",
    );
    assert_eq!(
        prompt,
        "Simplify the text to be easier to understand and remember.\nUse simpler words and shorter sentences.\nDo not remove important details.\n\nOutput JSON: result=simplified text, title=\"\", notes=\"\".\n\nReturn only a JSON object with keys: result, title, notes. Do not use code fences.\n\nTONE: Simple\nACTION: Simplify\nCONSTRAINTS: keep it short\nTEXT:\n<<<\nSome text.\n>>>"
    );
}

#[test]
fn prompt_with_blank_constraints_leaves_them_empty() {
    let prompt = build_writing_tools_prompt(
        WritingToolsCommand::List,
        WritingToolsTone::Clear,
        "   ",
        "a",
    );
    assert!(prompt.ends_with("\n\nTONE: Clear\nACTION: List\nCONSTRAINTS: \nTEXT:\n<<<\na\n>>>"));
}

#[test]
fn menu_toggles_per_side() {
    let open_front = WritingToolsMenuState::Open(MarkdownField::Front);
    assert_eq!(toggle_writing_tools_menu(WritingToolsMenuState::Closed, MarkdownField::Front), open_front);
    assert_eq!(toggle_writing_tools_menu(open_front, MarkdownField::Front), WritingToolsMenuState::Closed);
    assert_eq!(
        toggle_writing_tools_menu(open_front, MarkdownField::Back),
        WritingToolsMenuState::Open(MarkdownField::Back)
    );
}

#[test]
fn source_prefers_selection() {
    assert_eq!(pick_writing_tools_source("<b>x</b>", "x", "<p>all</p>"), "<b>x</b>");
    assert_eq!(pick_writing_tools_source("  ", "x", "<p>all</p>"), "x");
    assert_eq!(pick_writing_tools_source("", " \n", "<p>all</p>"), "<p>all</p>");
}

#[test]
fn request_carries_its_prompt() {
    let request = WritingToolsRequest::new(
        MarkdownField::Back,
        WritingToolsCommand::Concise,
        WritingToolsTone::Formal,
        "short".to_string(),
        "Long text".to_string(),
    );
    assert_eq!(request.field, MarkdownField::Back);
    assert_eq!(
        request.request_prompt,
        build_writing_tools_prompt(WritingToolsCommand::Concise, WritingToolsTone::Formal, "short", "Long text")
    );
    assert_eq!(request.source_text, "Long text");
}

#[test]
fn replacement_skips_blank_results() {
    assert_eq!(writing_tools_replacement("<p>New</p>"), Some("New".to_string()));
    assert_eq!(writing_tools_replacement("<p><br></p>  "), None);
    assert_eq!(writing_tools_replacement("<p> </p>"), None);
}

#[test]
fn menu_and_result_show_on_their_side() {
    let open_back = WritingToolsMenuState::Open(MarkdownField::Back);
    assert!(menu_open_for(open_back, MarkdownField::Back));
    assert!(!menu_open_for(open_back, MarkdownField::Front));
    assert!(!menu_open_for(WritingToolsMenuState::Closed, MarkdownField::Back));
    assert!(result_open_for(WritingToolsResultStatus::Loading, Some(MarkdownField::Front), MarkdownField::Front));
    assert!(!result_open_for(WritingToolsResultStatus::Idle, Some(MarkdownField::Front), MarkdownField::Front));
    assert!(!result_open_for(WritingToolsResultStatus::Ready, Some(MarkdownField::Back), MarkdownField::Front));
    assert!(!result_open_for(WritingToolsResultStatus::Error, None, MarkdownField::Front));
}
