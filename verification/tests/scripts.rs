use learn_ui::js::{js_string_literal, push_js_literal};
use learn_ui::scripts::{
    apply_link_script, attach_rich_paste_handler_script, exec_command_script,
    read_editable_html_script, read_selected_link_href_script, remove_link_script,
    replace_selection_or_all_script, selection_read_script, set_block_dir_script,
    set_editable_html_script, wrap_selection_script, write_clipboard_script,
};

#[test]
fn js_literal_quotes_plain_text() {
    assert_eq!(js_string_literal("hello"), "\"hello\"");
    assert_eq!(js_string_literal(""), "\"\"");
}

#[test]
fn js_literal_escapes_special_characters() {
    assert_eq!(js_string_literal("a\"b"), "\"a\\\"b\"");
    assert_eq!(js_string_literal("back\\slash"), "\"back\\\\slash\"");
    assert_eq!(js_string_literal("l1\nl2\r\tend"), "\"l1\\nl2\\r\\tend\"");
    assert_eq!(js_string_literal("é✓'"), "\"é✓'\"");
}

#[test]
fn js_literal_appends_to_existing_text() {
    let mut out = String::from("x = ");
    push_js_literal(&mut out, "a\"");
    assert_eq!(out, "x = \"a\\\"\"");
}

#[test]
fn js_literals_of_different_texts_differ() {
    let inputs = ["a", "a\\", "a\"", "a\\\"", "\\n", "\n", "", "\"\""];
    for (i, a) in inputs.iter().enumerate() {
        for (j, b) in inputs.iter().enumerate() {
            assert_eq!(i == j, js_string_literal(a) == js_string_literal(b));
        }
    }
}

#[test]
fn exec_command_without_value_passes_null() {
    let script = exec_command_script("prompt", "bold", None);
    assert_eq!(
        script,
        "\n        const el = document.getElementById(\"prompt\");\n        if (!el) { return; }\n        el.focus();\n        document.execCommand(\"bold\", false, null);\n        "
    );
}

#[test]
fn exec_command_with_value_passes_its_literal() {
    let script = exec_command_script("answer", "createLink", Some("https://x.y/\"q\""));
    assert!(script.contains("document.getElementById(\"answer\")"));
    assert!(script.contains("document.execCommand(\"createLink\", false, \"https://x.y/\\\"q\\\"\");"));
}

#[test]
fn wrap_selection_uses_open_and_close_tags() {
    let script = wrap_selection_script("prompt", "code", None);
    assert!(script.contains("document.execCommand(\"insertHTML\", false, \"<code>\" + \"</code>\");"));
    assert!(script.contains("? \"<code>\" + selectedHtml + \"</code>\""));
    assert!(script.contains(": \"<code>\" + \"<span data-caret=\\\"true\\\"></span>\" + \"</code>\";"));
}

#[test]
fn wrap_selection_nests_inner_tag() {
    let script = wrap_selection_script("answer", "pre", Some("code"));
    assert!(script.contains("\"<pre><code>\" + \"</code></pre>\""));
    assert!(script.contains("document.getElementById(\"answer\")"));
}

#[test]
fn block_dir_aligns_right_only_for_rtl() {
    let rtl = set_block_dir_script("prompt", "rtl");
    assert!(rtl.contains("node.setAttribute(\"dir\", \"rtl\");"));
    assert!(rtl.contains("node.style.textAlign = \"right\";"));
    let ltr = set_block_dir_script("prompt", "ltr");
    assert!(ltr.contains("node.setAttribute(\"dir\", \"ltr\");"));
    assert!(ltr.contains("node.style.textAlign = \"left\";"));
    assert!(!ltr.contains("{{"));
}

#[test]
fn selection_reader_keeps_its_template_braces() {
    let script = selection_read_script("prompt");
    assert!(script.starts_with("\n    const el = document.getElementById(\"prompt\");"));
    assert!(script.contains("if (!el) {{ return {{ html: \"\", text: \"\" }}; }}"));
}

#[test]
fn html_scripts_quote_the_html() {
    let set = set_editable_html_script("prompt", "<p>\"hi\"</p>");
    assert!(set.contains("if (el) { el.innerHTML = \"<p>\\\"hi\\\"</p>\"; }"));
    let read = read_editable_html_script("answer");
    assert_eq!(
        read,
        "\n        const el = document.getElementById(\"answer\");\n        return el ? el.innerHTML : \"\";\n        "
    );
    let replace = replace_selection_or_all_script("prompt", "<b>x</b>");
    assert_eq!(replace.matches("\"<b>x</b>\"").count(), 2);
}

#[test]
fn clipboard_script_quotes_html_and_text() {
    let script = write_clipboard_script("<p>a</p>", "a\nb");
    assert!(script.starts_with("\n        const html = \"<p>a</p>\";\n        const text = \"a\\nb\";"));
}

#[test]
fn link_scripts_name_the_element() {
    assert!(read_selected_link_href_script("prompt").contains("getElementById(\"prompt\")"));
    assert!(remove_link_script("answer").contains("document.execCommand(\"unlink\", false, null);"));
    let apply = apply_link_script("prompt", "https://a.b");
    assert_eq!(apply.matches("\"https://a.b\"").count(), 3);
    let paste = attach_rich_paste_handler_script("answer");
    assert!(paste.contains("window.__learnAttachRichPaste(document.getElementById(\"answer\"));"));
}
