//! The JavaScript snippets that the editor runs in its web view. Each
//! builder fills a fixed template with element ids (as given) and with
//! values quoted as JavaScript string literals.
use vstd::prelude::*;

use crate::js::{js_literal, js_string_literal};
use crate::text::str_equals;

verus! {

/// What the selection reader returns: the selected HTML and its text.
pub struct SelectionSnapshot {
    pub html: String,
    pub text: String,
}

/// The view of an optional string slice.
pub open spec fn opt_view(o: Option<&str>) -> Option<Seq<char>> {
    match o {
        Some(s) => Some(s@),
        None => None,
    }
}

/// The placeholder that marks where the caret goes after wrapping an empty
/// selection.
pub const CARET_MARKER: &'static str = "<span data-caret=\"true\"></span>";

pub const ALIGN_RIGHT: &'static str = "\"right\"";

pub const ALIGN_LEFT: &'static str = "\"left\"";

pub const DIR_RTL: &'static str = "rtl";

pub const JS_NULL: &'static str = "null";

/// The JavaScript alignment literal that goes with the direction `dir`:
/// right for `rtl`, left for anything else.
pub open spec fn align_literal_for(dir: Seq<char>) -> Seq<char> {
    if dir == DIR_RTL@ {
        ALIGN_RIGHT@
    } else {
        ALIGN_LEFT@
    }
}

fn align_literal_str(dir: &str) -> (r: &'static str)
    ensures
        r@ == align_literal_for(dir@),
{
    if str_equals(dir, DIR_RTL) {
        ALIGN_RIGHT
    } else {
        ALIGN_LEFT
    }
}

/// The opening markup `<tag>` or `<tag><inner_tag>`.
pub open spec fn wrap_open(tag: Seq<char>, inner_tag: Option<Seq<char>>) -> Seq<char> {
    match inner_tag {
        Some(inner) => seq!['<'] + tag + seq!['>'] + seq!['<'] + inner + seq!['>'],
        None => seq!['<'] + tag + seq!['>'],
    }
}

/// The closing markup `</tag>` or `</inner_tag></tag>`.
pub open spec fn wrap_close(tag: Seq<char>, inner_tag: Option<Seq<char>>) -> Seq<char> {
    match inner_tag {
        Some(inner) => seq!['<', '/'] + inner + seq!['>'] + seq!['<', '/'] + tag + seq!['>'],
        None => seq!['<', '/'] + tag + seq!['>'],
    }
}

fn push_open_tag(out: &mut String, tag: &str)
    ensures
        final(out)@ == old(out)@ + seq!['<'] + tag@ + seq!['>'],
{
    crate::text::push_char(out, '<');
    out.append(tag);
    crate::text::push_char(out, '>');
}

fn push_close_tag(out: &mut String, tag: &str)
    ensures
        final(out)@ == old(out)@ + seq!['<', '/'] + tag@ + seq!['>'],
{
    let ghost start = out@;
    crate::text::push_char(out, '<');
    crate::text::push_char(out, '/');
    out.append(tag);
    crate::text::push_char(out, '>');
    assert(out@ =~= start + seq!['<', '/'] + tag@ + seq!['>']);
}

fn wrap_open_string(tag: &str, inner_tag: Option<&str>) -> (r: String)
    ensures
        r@ == wrap_open(tag@, opt_view(inner_tag)),
{
    let mut out = String::new();
    push_open_tag(&mut out, tag);
    match inner_tag {
        Some(inner) => {
            push_open_tag(&mut out, inner);
        },
        None => {},
    }
    assert(out@ =~= wrap_open(tag@, opt_view(inner_tag)));
    out
}

fn wrap_close_string(tag: &str, inner_tag: Option<&str>) -> (r: String)
    ensures
        r@ == wrap_close(tag@, opt_view(inner_tag)),
{
    let mut out = String::new();
    match inner_tag {
        Some(inner) => {
            push_close_tag(&mut out, inner);
        },
        None => {},
    }
    push_close_tag(&mut out, tag);
    assert(out@ =~= wrap_close(tag@, opt_view(inner_tag)));
    out
}

/// The JavaScript value for an optional command argument: its literal, or
/// `null` when there is none.
pub open spec fn value_literal_for(value: Option<Seq<char>>) -> Seq<char> {
    match value {
        Some(v) => js_literal(v),
        None => JS_NULL@,
    }
}

fn value_literal_string(value: Option<&str>) -> (r: String)
    ensures
        r@ == value_literal_for(opt_view(value)),
{
    match value {
        Some(v) => js_string_literal(v),
        None => {
            let mut s = String::new();
            s.append(JS_NULL);
            s
        },
    }
}

pub const SELECTION_READ_0: &'static str = "\n    const el = document.getElementById(\"";
pub const SELECTION_READ_1: &'static str = "\");\n    if (!el) {{ return {{ html: \"\", text: \"\" }}; }}\n    const sel = window.getSelection();\n    if (!sel || sel.rangeCount === 0 || sel.isCollapsed) {{\n        return {{ html: \"\", text: \"\" }};\n    }}\n    const range = sel.getRangeAt(0);\n    if (!el.contains(range.commonAncestorContainer)) {{\n        return {{ html: \"\", text: \"\" }};\n    }}\n    const fragment = range.cloneContents();\n    const wrapper = document.createElement(\"div\");\n    wrapper.appendChild(fragment);\n    return {{ html: wrapper.innerHTML || \"\", text: sel.toString() || \"\" }};\n";
pub const SET_BLOCK_DIR_0: &'static str = "\n        const el = document.getElementById(\"";
pub const SET_BLOCK_DIR_1: &'static str = "\");\n        if (!el) { return; }\n        el.focus();\n        const sel = window.getSelection();\n        if (!sel || sel.rangeCount === 0) { return; }\n        const blockTags = new Set([\"P\", \"DIV\", \"LI\", \"BLOCKQUOTE\", \"PRE\"]);\n        let node = sel.anchorNode;\n        if (node && node.nodeType === Node.TEXT_NODE) {\n            node = node.parentElement;\n        }\n        while (node && node !== el && !blockTags.has(node.tagName)) {\n            node = node.parentElement;\n        }\n        if (node === el) {\n            document.execCommand(\"formatBlock\", false, \"div\");\n            node = sel.anchorNode;\n            if (node && node.nodeType === Node.TEXT_NODE) {\n                node = node.parentElement;\n            }\n            while (node && node !== el && !blockTags.has(node.tagName)) {\n                node = node.parentElement;\n            }\n        }\n        if (node && node !== el) {\n            node.setAttribute(\"dir\", ";
pub const SET_BLOCK_DIR_2: &'static str = ");\n            node.style.textAlign = ";
pub const SET_BLOCK_DIR_3: &'static str = ";\n            node.style.unicodeBidi = \"plaintext\";\n        }\n        ";
pub const WRAP_SELECTION_0: &'static str = "\n        const el = document.getElementById(\"";
pub const WRAP_SELECTION_1: &'static str = "\");\n        if (!el) { return; }\n        el.focus();\n        const sel = window.getSelection();\n        if (!sel || sel.rangeCount === 0) {\n            document.execCommand(\"insertHTML\", false, ";
pub const WRAP_SELECTION_2: &'static str = " + ";
pub const WRAP_SELECTION_3: &'static str = ");\n            return;\n        }\n        const range = sel.getRangeAt(0);\n        if (!el.contains(range.commonAncestorContainer)) {\n            return;\n        }\n        const container = document.createElement(\"div\");\n        container.appendChild(range.cloneContents());\n        const selectedHtml = container.innerHTML;\n        const html = selectedHtml\n            ? ";
pub const WRAP_SELECTION_4: &'static str = " + selectedHtml + ";
pub const WRAP_SELECTION_5: &'static str = "\n            : ";
pub const WRAP_SELECTION_6: &'static str = " + ";
pub const WRAP_SELECTION_7: &'static str = " + ";
pub const WRAP_SELECTION_8: &'static str = ";\n        document.execCommand(\"insertHTML\", false, html);\n        const marker = el.querySelector('[data-caret=\"true\"]');\n        if (marker) {\n            const newRange = document.createRange();\n            newRange.setStartAfter(marker);\n            newRange.collapse(true);\n            const sel2 = window.getSelection();\n            sel2.removeAllRanges();\n            sel2.addRange(newRange);\n            marker.remove();\n        }\n        ";
pub const EXEC_COMMAND_0: &'static str = "\n        const el = document.getElementById(\"";
pub const EXEC_COMMAND_1: &'static str = "\");\n        if (!el) { return; }\n        el.focus();\n        document.execCommand(";
pub const EXEC_COMMAND_2: &'static str = ", false, ";
pub const EXEC_COMMAND_3: &'static str = ");\n        ";
pub const READ_EDITABLE_HTML_0: &'static str = "\n        const el = document.getElementById(\"";
pub const READ_EDITABLE_HTML_1: &'static str = "\");\n        return el ? el.innerHTML : \"\";\n        ";
pub const SET_EDITABLE_HTML_0: &'static str = "\n        const el = document.getElementById(\"";
pub const SET_EDITABLE_HTML_1: &'static str = "\");\n        if (el) { el.innerHTML = ";
pub const SET_EDITABLE_HTML_2: &'static str = "; }\n        ";
pub const REPLACE_SELECTION_0: &'static str = "\n        const el = document.getElementById(\"";
pub const REPLACE_SELECTION_1: &'static str = "\");\n        if (!el) { return; }\n        el.focus();\n        const sel = window.getSelection();\n        const range = sel && sel.rangeCount > 0 ? sel.getRangeAt(0) : null;\n        const isInside = range ? el.contains(range.commonAncestorContainer) : false;\n        if (isInside && sel && !sel.isCollapsed) {\n            document.execCommand(\"insertHTML\", false, ";
pub const REPLACE_SELECTION_2: &'static str = ");\n            return;\n        }\n        document.execCommand(\"selectAll\", false, null);\n        document.execCommand(\"insertHTML\", false, ";
pub const REPLACE_SELECTION_3: &'static str = ");\n        ";
pub const WRITE_CLIPBOARD_0: &'static str = "\n        const html = ";
pub const WRITE_CLIPBOARD_1: &'static str = ";\n        const text = ";
pub const WRITE_CLIPBOARD_2: &'static str = ";\n        try {\n            if (navigator.clipboard && navigator.clipboard.write) {\n                const item = new ClipboardItem({\n                    \"text/html\": new Blob([html], { type: \"text/html\" }),\n                    \"text/plain\": new Blob([text], { type: \"text/plain\" })\n                });\n                await navigator.clipboard.write([item]);\n                return;\n            }\n        } catch (_) {}\n        try {\n            if (navigator.clipboard && navigator.clipboard.writeText) {\n                await navigator.clipboard.writeText(text);\n            }\n        } catch (_) {}\n        ";
pub const READ_LINK_HREF_0: &'static str = "\n        const el = document.getElementById(\"";
pub const READ_LINK_HREF_1: &'static str = "\");\n        if (!el) { return \"\"; }\n        const sel = window.getSelection();\n        if (!sel || sel.rangeCount === 0) { return \"\"; }\n        const range = sel.getRangeAt(0);\n        if (!el.contains(range.commonAncestorContainer)) { return \"\"; }\n        let node = sel.anchorNode;\n        if (node && node.nodeType === Node.TEXT_NODE) {\n            node = node.parentElement;\n        }\n        while (node && node !== el) {\n            if (node.tagName === \"A\") {\n                return node.getAttribute(\"href\") || \"\";\n            }\n            node = node.parentElement;\n        }\n        return \"\";\n        ";
pub const APPLY_LINK_0: &'static str = "\n        const el = document.getElementById(\"";
pub const APPLY_LINK_1: &'static str = "\");\n        if (!el) { return; }\n        el.focus();\n        const sel = window.getSelection();\n        if (!sel || sel.rangeCount === 0) {\n            return;\n        }\n        const range = sel.getRangeAt(0);\n        if (!el.contains(range.commonAncestorContainer)) {\n            return;\n        }\n        let node = sel.anchorNode;\n        if (node && node.nodeType === Node.TEXT_NODE) {\n            node = node.parentElement;\n        }\n        while (node && node !== el) {\n            if (node.tagName === \"A\") {\n                node.setAttribute(\"href\", ";
pub const APPLY_LINK_2: &'static str = ");\n                return;\n            }\n            node = node.parentElement;\n        }\n        if (sel.isCollapsed) {\n            const url = ";
pub const APPLY_LINK_3: &'static str = ";\n            const link = document.createElement(\"a\");\n            link.setAttribute(\"href\", url);\n            link.textContent = url;\n            document.execCommand(\"insertHTML\", false, link.outerHTML);\n        } else {\n            document.execCommand(\"createLink\", false, ";
pub const APPLY_LINK_4: &'static str = ");\n        }\n        ";
pub const REMOVE_LINK_0: &'static str = "\n        const el = document.getElementById(\"";
pub const REMOVE_LINK_1: &'static str = "\");\n        if (!el) { return; }\n        el.focus();\n        const sel = window.getSelection();\n        if (!sel || sel.rangeCount === 0) { return; }\n        const range = sel.getRangeAt(0);\n        if (!el.contains(range.commonAncestorContainer)) { return; }\n        let node = sel.anchorNode;\n        if (node && node.nodeType === Node.TEXT_NODE) {\n            node = node.parentElement;\n        }\n        while (node && node !== el) {\n            if (node.tagName === \"A\") {\n                const parent = node.parentNode;\n                if (parent) {\n                    while (node.firstChild) {\n                        parent.insertBefore(node.firstChild, node);\n                    }\n                    parent.removeChild(node);\n                }\n                return;\n            }\n            node = node.parentElement;\n        }\n        document.execCommand(\"unlink\", false, null);\n        ";
pub const RICH_PASTE_0: &'static str = "\n        if (!window.__learnRichPasteInit) {\n            window.__learnRichPasteInit = true;\n            window.__learnLooksLikeHtml = function (input) {\n                const trimmed = input.trimStart();\n                if (!trimmed) return false;\n                const lower = trimmed.toLowerCase();\n                const start = lower.indexOf(\"<\");\n                if (start === -1) return false;\n                if (lower.slice(start + 1).indexOf(\">\") === -1) return false;\n                const tags = [\"<!doctype\", \"<html\", \"<body\", \"<p\", \"<div\", \"<span\", \"<br\", \"<a \", \"<img\"];\n                return tags.some(tag => lower.includes(tag));\n            };\n            window.__learnLooksLikeMarkdown = function (input) {\n                const trimmed = input.trimStart();\n                if (!trimmed) return false;\n                const lower = trimmed.toLowerCase();\n                if (lower.includes(\"```\") || lower.includes(\"**\") || lower.includes(\"__\")) return true;\n                if (lower.includes(\"](\")) return true;\n                const lines = trimmed.split(/\\\\r?\\\\n/);\n                for (const line of lines) {\n                    const check = line.trimStart();\n                    if (\n                        check.startsWith(\"# \") ||\n                        check.startsWith(\"## \") ||\n                        check.startsWith(\"- \") ||\n                        check.startsWith(\"* \") ||\n                        check.startsWith(\"> \")\n                    ) {\n                        return true;\n                    }\n                }\n                return false;\n            };\n            window.__learnEscapeHtml = function (value) {\n                return value\n                    .replace(/&/g, \"&amp;\")\n                    .replace(/</g, \"&lt;\")\n                    .replace(/>/g, \"&gt;\")\n                    .replace(/\\\"/g, \"&quot;\")\n                    .replace(/'/g, \"&#39;\");\n            };\n            window.__learnInlineMarkdown = function (line) {\n                let text = window.__learnEscapeHtml(line);\n                text = text.replace(/`([^`]+)`/g, \"<code>$1</code>\");\n                text = text.replace(/\\\\*\\\\*([^*]+)\\\\*\\\\*/g, \"<strong>$1</strong>\");\n                text = text.replace(/__([^_]+)__/g, \"<strong>$1</strong>\");\n                text = text.replace(/\\\\*([^*]+)\\\\*/g, \"<em>$1</em>\");\n                text = text.replace(/_([^_]+)_/g, \"<em>$1</em>\");\n                return text;\n            };\n            window.__learnMarkdownToHtml = function (input) {\n                const lines = input.replace(/\\\\r\\\\n/g, \"\\\\n\").split(\"\\\\n\");\n                let html = \"\";\n                let inUl = false;\n                let inOl = false;\n                const closeLists = () => {\n                    if (inUl) {\n                        html += \"</ul>\";\n                        inUl = false;\n                    }\n                    if (inOl) {\n                        html += \"</ol>\";\n                        inOl = false;\n                    }\n                };\n                for (const rawLine of lines) {\n                    const line = rawLine.trimEnd();\n                    if (/^\\\\s*[-*+]\\\\s+/.test(line)) {\n                        if (!inUl) {\n                            closeLists();\n                            html += \"<ul>\";\n                            inUl = true;\n                        }\n                        html += \"<li>\" + window.__learnInlineMarkdown(line.replace(/^\\\\s*[-*+]\\\\s+/, \"\")) + \"</li>\";\n                        continue;\n                    }\n                    if (/^\\\\s*\\\\d+\\\\.\\\\s+/.test(line)) {\n                        if (!inOl) {\n                            closeLists();\n                            html += \"<ol>\";\n                            inOl = true;\n                        }\n                        html += \"<li>\" + window.__learnInlineMarkdown(line.replace(/^\\\\s*\\\\d+\\\\.\\\\s+/, \"\")) + \"</li>\";\n                        continue;\n                    }\n                    closeLists();\n                    if (line.trim() === \"\") {\n                        html += \"<br>\";\n                        continue;\n                    }\n                    if (/^\\\\s*#{1,6}\\\\s+/.test(line)) {\n                        const headingText = line.replace(/^\\\\s*#{1,6}\\\\s+/, \"\");\n                        html += \"<p><strong>\" + window.__learnInlineMarkdown(headingText) + \"</strong></p>\";\n                        continue;\n                    }\n                    if (/^\\\\s*>\\\\s+/.test(line)) {\n                        const quoteText = line.replace(/^\\\\s*>\\\\s+/, \"\");\n                        html += \"<blockquote>\" + window.__learnInlineMarkdown(quoteText) + \"</blockquote>\";\n                        continue;\n                    }\n                    html += \"<p>\" + window.__learnInlineMarkdown(line) + \"</p>\";\n                }\n                closeLists();\n                return html;\n            };\n            window.__learnSanitizeHtml = function (html) {\n                const template = document.createElement(\"template\");\n                template.innerHTML = html;\n                const allowedTags = new Set([\n                    \"p\", \"div\", \"span\", \"br\", \"em\", \"strong\", \"b\", \"i\", \"code\", \"pre\",\n                    \"blockquote\", \"ul\", \"ol\", \"li\", \"a\"\n                ]);\n                const allowedAttrs = {\n                    a: new Set([\"href\"])\n                };\n                const cleanNode = function (node) {\n                    if (node.nodeType === Node.ELEMENT_NODE) {\n                        const tag = node.tagName.toLowerCase();\n                        if (!allowedTags.has(tag)) {\n                            const parent = node.parentNode;\n                            if (parent) {\n                                const children = Array.from(node.childNodes);\n                                for (const child of children) {\n                                    parent.insertBefore(child, node);\n                                    cleanNode(child);\n                                }\n                                parent.removeChild(node);\n                                return;\n                            }\n                        }\n                        const attrs = Array.from(node.attributes || []);\n                        for (const attr of attrs) {\n                            const allowForTag = allowedAttrs[tag];\n                            if (!allowForTag || !allowForTag.has(attr.name)) {\n                                node.removeAttribute(attr.name);\n                            }\n                        }\n                        if (tag === \"a\") {\n                            const href = (node.getAttribute(\"href\") || \"\").trim();\n                            const lowerHref = href.toLowerCase();\n                            if (lowerHref.startsWith(\"javascript:\") || lowerHref.startsWith(\"data:\")) {\n                                node.removeAttribute(\"href\");\n                            }\n                        }\n                    }\n                    const children = Array.from(node.childNodes || []);\n                    for (const child of children) {\n                        cleanNode(child);\n                    }\n                };\n                cleanNode(template.content);\n                return template.innerHTML || \"\";\n            };\n            window.__learnAttachRichPaste = function (el) {\n                if (!el || el.dataset.learnRichPaste === \"true\") return;\n                el.dataset.learnRichPaste = \"true\";\n                el.addEventListener(\"paste\", function (event) {\n                    if (!event.clipboardData) {\n                        return;\n                    }\n                    const html = event.clipboardData.getData(\"text/html\") || \"\";\n                    const text = event.clipboardData.getData(\"text/plain\") || \"\";\n                    if (!html && !text) {\n                        return;\n                    }\n                    let insertHtml = \"\";\n                    if (html && html.trim()) {\n                        insertHtml = window.__learnSanitizeHtml(html);\n                    } else if (window.__learnLooksLikeHtml(text)) {\n                        insertHtml = window.__learnSanitizeHtml(text);\n                    } else if (window.__learnLooksLikeMarkdown(text)) {\n                        insertHtml = window.__learnSanitizeHtml(window.__learnMarkdownToHtml(text));\n                    } else {\n                        event.preventDefault();\n                        document.execCommand(\"insertText\", false, text);\n                        return;\n                    }\n                    event.preventDefault();\n                    document.execCommand(\"insertHTML\", false, insertHtml);\n                }, { passive: false });\n            };\n        }\n        window.__learnAttachRichPaste(document.getElementById(\"";
pub const RICH_PASTE_1: &'static str = "\"));\n        ";

/// The text of the script that reads the current selection inside the element `element_id` as an object `{ html, text }`.
pub open spec fn selection_read_script_text(element_id: Seq<char>) -> Seq<char> {
    SELECTION_READ_0@
        + element_id
        + SELECTION_READ_1@
}

/// The text of the script that sets the text direction `dir` (and the matching alignment) on the block holding the caret inside the element `element_id`.
pub open spec fn set_block_dir_script_text(element_id: Seq<char>, dir: Seq<char>) -> Seq<char> {
    SET_BLOCK_DIR_0@
        + element_id
        + SET_BLOCK_DIR_1@
        + js_literal(dir)
        + SET_BLOCK_DIR_2@
        + align_literal_for(dir)
        + SET_BLOCK_DIR_3@
}

/// The text of the script that wraps the selection inside the element `element_id` in `<tag>` (and `<inner_tag>` within it), or inserts an empty pair with the caret between them.
pub open spec fn wrap_selection_script_text(element_id: Seq<char>, tag: Seq<char>, inner_tag: Option<Seq<char>>) -> Seq<char> {
    WRAP_SELECTION_0@
        + element_id
        + WRAP_SELECTION_1@
        + js_literal(wrap_open(tag, inner_tag))
        + WRAP_SELECTION_2@
        + js_literal(wrap_close(tag, inner_tag))
        + WRAP_SELECTION_3@
        + js_literal(wrap_open(tag, inner_tag))
        + WRAP_SELECTION_4@
        + js_literal(wrap_close(tag, inner_tag))
        + WRAP_SELECTION_5@
        + js_literal(wrap_open(tag, inner_tag))
        + WRAP_SELECTION_6@
        + js_literal(CARET_MARKER@)
        + WRAP_SELECTION_7@
        + js_literal(wrap_close(tag, inner_tag))
        + WRAP_SELECTION_8@
}

/// The text of the script that focuses the element `element_id` and runs the editing command `command` with the argument `value` (`null` when there is none).
pub open spec fn exec_command_script_text(element_id: Seq<char>, command: Seq<char>, value: Option<Seq<char>>) -> Seq<char> {
    EXEC_COMMAND_0@
        + element_id
        + EXEC_COMMAND_1@
        + js_literal(command)
        + EXEC_COMMAND_2@
        + value_literal_for(value)
        + EXEC_COMMAND_3@
}

/// The text of the script that returns the inner HTML of the element `element_id`, or an empty string when there is no such element.
pub open spec fn read_editable_html_script_text(element_id: Seq<char>) -> Seq<char> {
    READ_EDITABLE_HTML_0@
        + element_id
        + READ_EDITABLE_HTML_1@
}

/// The text of the script that replaces the inner HTML of the element `element_id` with `html`.
pub open spec fn set_editable_html_script_text(element_id: Seq<char>, html: Seq<char>) -> Seq<char> {
    SET_EDITABLE_HTML_0@
        + element_id
        + SET_EDITABLE_HTML_1@
        + js_literal(html)
        + SET_EDITABLE_HTML_2@
}

/// The text of the script that replaces the selection inside the element `element_id` with `html`, or the whole content when nothing there is selected.
pub open spec fn replace_selection_or_all_script_text(element_id: Seq<char>, html: Seq<char>) -> Seq<char> {
    REPLACE_SELECTION_0@
        + element_id
        + REPLACE_SELECTION_1@
        + js_literal(html)
        + REPLACE_SELECTION_2@
        + js_literal(html)
        + REPLACE_SELECTION_3@
}

/// The text of the script that puts `html` and its plain-text form `text` on the clipboard.
pub open spec fn write_clipboard_script_text(html: Seq<char>, text: Seq<char>) -> Seq<char> {
    WRITE_CLIPBOARD_0@
        + js_literal(html)
        + WRITE_CLIPBOARD_1@
        + js_literal(text)
        + WRITE_CLIPBOARD_2@
}

/// The text of the script that returns the `href` of the link around the caret inside the element `element_id`, or an empty string.
pub open spec fn read_selected_link_href_script_text(element_id: Seq<char>) -> Seq<char> {
    READ_LINK_HREF_0@
        + element_id
        + READ_LINK_HREF_1@
}

/// The text of the script that points the link around the caret inside the element `element_id` at `url`, or makes the selection (or a new text `url`) a link to it.
pub open spec fn apply_link_script_text(element_id: Seq<char>, url: Seq<char>) -> Seq<char> {
    APPLY_LINK_0@
        + element_id
        + APPLY_LINK_1@
        + js_literal(url)
        + APPLY_LINK_2@
        + js_literal(url)
        + APPLY_LINK_3@
        + js_literal(url)
        + APPLY_LINK_4@
}

/// The text of the script that unwraps the link around the caret inside the element `element_id`.
pub open spec fn remove_link_script_text(element_id: Seq<char>) -> Seq<char> {
    REMOVE_LINK_0@
        + element_id
        + REMOVE_LINK_1@
}

/// The text of the script that installs, once per page, the paste handler that sanitizes pasted HTML and turns pasted Markdown into HTML, and attaches it to the element `element_id`.
pub open spec fn attach_rich_paste_handler_script_text(element_id: Seq<char>) -> Seq<char> {
    RICH_PASTE_0@
        + element_id
        + RICH_PASTE_1@
}
/// The script that reads the current selection inside the element `element_id` as an object `{ html, text }`.
pub fn selection_read_script(element_id: &str) -> (r: String)
    ensures
        r@ == selection_read_script_text(element_id@),
{
    let mut out = String::new();
    out.append(SELECTION_READ_0);
    out.append(element_id);
    out.append(SELECTION_READ_1);
    out
}

/// The script that sets the text direction `dir` (and the matching alignment) on the block holding the caret inside the element `element_id`.
pub fn set_block_dir_script(element_id: &str, dir: &str) -> (r: String)
    ensures
        r@ == set_block_dir_script_text(element_id@, dir@),
{
    let dir_literal = js_string_literal(dir);
    let align_literal = align_literal_str(dir);
    let mut out = String::new();
    out.append(SET_BLOCK_DIR_0);
    out.append(element_id);
    out.append(SET_BLOCK_DIR_1);
    out.append(dir_literal.as_str());
    out.append(SET_BLOCK_DIR_2);
    out.append(align_literal);
    out.append(SET_BLOCK_DIR_3);
    out
}

/// The script that wraps the selection inside the element `element_id` in `<tag>` (and `<inner_tag>` within it), or inserts an empty pair with the caret between them.
pub fn wrap_selection_script(element_id: &str, tag: &str, inner_tag: Option<&str>) -> (r: String)
    ensures
        r@ == wrap_selection_script_text(element_id@, tag@, opt_view(inner_tag)),
{
    let before = wrap_open_string(tag, inner_tag);
    let after = wrap_close_string(tag, inner_tag);
    let before_literal = js_string_literal(before.as_str());
    let after_literal = js_string_literal(after.as_str());
    let marker_literal = js_string_literal(CARET_MARKER);
    let mut out = String::new();
    out.append(WRAP_SELECTION_0);
    out.append(element_id);
    out.append(WRAP_SELECTION_1);
    out.append(before_literal.as_str());
    out.append(WRAP_SELECTION_2);
    out.append(after_literal.as_str());
    out.append(WRAP_SELECTION_3);
    out.append(before_literal.as_str());
    out.append(WRAP_SELECTION_4);
    out.append(after_literal.as_str());
    out.append(WRAP_SELECTION_5);
    out.append(before_literal.as_str());
    out.append(WRAP_SELECTION_6);
    out.append(marker_literal.as_str());
    out.append(WRAP_SELECTION_7);
    out.append(after_literal.as_str());
    out.append(WRAP_SELECTION_8);
    out
}

/// The script that focuses the element `element_id` and runs the editing command `command` with the argument `value` (`null` when there is none).
pub fn exec_command_script(element_id: &str, command: &str, value: Option<&str>) -> (r: String)
    ensures
        r@ == exec_command_script_text(element_id@, command@, opt_view(value)),
{
    let command_literal = js_string_literal(command);
    let value_literal = value_literal_string(value);
    let mut out = String::new();
    out.append(EXEC_COMMAND_0);
    out.append(element_id);
    out.append(EXEC_COMMAND_1);
    out.append(command_literal.as_str());
    out.append(EXEC_COMMAND_2);
    out.append(value_literal.as_str());
    out.append(EXEC_COMMAND_3);
    out
}

/// The script that returns the inner HTML of the element `element_id`, or an empty string when there is no such element.
pub fn read_editable_html_script(element_id: &str) -> (r: String)
    ensures
        r@ == read_editable_html_script_text(element_id@),
{
    let mut out = String::new();
    out.append(READ_EDITABLE_HTML_0);
    out.append(element_id);
    out.append(READ_EDITABLE_HTML_1);
    out
}

/// The script that replaces the inner HTML of the element `element_id` with `html`.
pub fn set_editable_html_script(element_id: &str, html: &str) -> (r: String)
    ensures
        r@ == set_editable_html_script_text(element_id@, html@),
{
    let html_literal = js_string_literal(html);
    let mut out = String::new();
    out.append(SET_EDITABLE_HTML_0);
    out.append(element_id);
    out.append(SET_EDITABLE_HTML_1);
    out.append(html_literal.as_str());
    out.append(SET_EDITABLE_HTML_2);
    out
}

/// The script that replaces the selection inside the element `element_id` with `html`, or the whole content when nothing there is selected.
pub fn replace_selection_or_all_script(element_id: &str, html: &str) -> (r: String)
    ensures
        r@ == replace_selection_or_all_script_text(element_id@, html@),
{
    let html_literal = js_string_literal(html);
    let mut out = String::new();
    out.append(REPLACE_SELECTION_0);
    out.append(element_id);
    out.append(REPLACE_SELECTION_1);
    out.append(html_literal.as_str());
    out.append(REPLACE_SELECTION_2);
    out.append(html_literal.as_str());
    out.append(REPLACE_SELECTION_3);
    out
}

/// The script that puts `html` and its plain-text form `text` on the clipboard.
pub fn write_clipboard_script(html: &str, text: &str) -> (r: String)
    ensures
        r@ == write_clipboard_script_text(html@, text@),
{
    let html_literal = js_string_literal(html);
    let text_literal = js_string_literal(text);
    let mut out = String::new();
    out.append(WRITE_CLIPBOARD_0);
    out.append(html_literal.as_str());
    out.append(WRITE_CLIPBOARD_1);
    out.append(text_literal.as_str());
    out.append(WRITE_CLIPBOARD_2);
    out
}

/// The script that returns the `href` of the link around the caret inside the element `element_id`, or an empty string.
pub fn read_selected_link_href_script(element_id: &str) -> (r: String)
    ensures
        r@ == read_selected_link_href_script_text(element_id@),
{
    let mut out = String::new();
    out.append(READ_LINK_HREF_0);
    out.append(element_id);
    out.append(READ_LINK_HREF_1);
    out
}

/// The script that points the link around the caret inside the element `element_id` at `url`, or makes the selection (or a new text `url`) a link to it.
pub fn apply_link_script(element_id: &str, url: &str) -> (r: String)
    ensures
        r@ == apply_link_script_text(element_id@, url@),
{
    let url_literal = js_string_literal(url);
    let mut out = String::new();
    out.append(APPLY_LINK_0);
    out.append(element_id);
    out.append(APPLY_LINK_1);
    out.append(url_literal.as_str());
    out.append(APPLY_LINK_2);
    out.append(url_literal.as_str());
    out.append(APPLY_LINK_3);
    out.append(url_literal.as_str());
    out.append(APPLY_LINK_4);
    out
}

/// The script that unwraps the link around the caret inside the element `element_id`.
pub fn remove_link_script(element_id: &str) -> (r: String)
    ensures
        r@ == remove_link_script_text(element_id@),
{
    let mut out = String::new();
    out.append(REMOVE_LINK_0);
    out.append(element_id);
    out.append(REMOVE_LINK_1);
    out
}

/// The script that installs, once per page, the paste handler that sanitizes pasted HTML and turns pasted Markdown into HTML, and attaches it to the element `element_id`.
pub fn attach_rich_paste_handler_script(element_id: &str) -> (r: String)
    ensures
        r@ == attach_rich_paste_handler_script_text(element_id@),
{
    let mut out = String::new();
    out.append(RICH_PASTE_0);
    out.append(element_id);
    out.append(RICH_PASTE_1);
    out
}
} // verus!
