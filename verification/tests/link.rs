use learn_ui::editor::MarkdownField;
use learn_ui::link::{
    link_to_apply, link_url_from_href, toggle_link_editor, update_link_url, LinkApply,
    LinkEditorState,
};

fn open_on(field: MarkdownField, url: &str) -> Option<LinkEditorState> {
    Some(LinkEditorState { field, url: url.to_string() })
}

#[test]
fn link_editor_toggles_per_side() {
    assert_eq!(toggle_link_editor(&None, MarkdownField::Front), open_on(MarkdownField::Front, "https://"));
    assert_eq!(toggle_link_editor(&open_on(MarkdownField::Front, "x"), MarkdownField::Front), None);
    assert_eq!(
        toggle_link_editor(&open_on(MarkdownField::Front, "x"), MarkdownField::Back),
        open_on(MarkdownField::Back, "https://")
    );
}

#[test]
fn link_editor_starts_with_existing_address() {
    assert_eq!(link_url_from_href("https://a.b"), "https://a.b");
    assert_eq!(link_url_from_href("  "), "https://");
}

#[test]
fn link_address_edits_only_an_open_editor() {
    assert_eq!(
        update_link_url(open_on(MarkdownField::Back, "h"), "https://c".to_string()),
        open_on(MarkdownField::Back, "https://c")
    );
    assert_eq!(update_link_url(None, "x".to_string()), None);
}

#[test]
fn applying_a_link() {
    assert_eq!(link_to_apply(&None, MarkdownField::Front), LinkApply::Ignore);
    assert_eq!(link_to_apply(&open_on(MarkdownField::Back, "https://a"), MarkdownField::Front), LinkApply::Ignore);
    assert_eq!(link_to_apply(&open_on(MarkdownField::Front, "   "), MarkdownField::Front), LinkApply::Close);
    assert_eq!(
        link_to_apply(&open_on(MarkdownField::Front, " https://a.b "), MarkdownField::Front),
        LinkApply::Apply("https://a.b".to_string())
    );
}
