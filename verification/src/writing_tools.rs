//! The writing tools: the commands and tones offered, the title of a
//! result, the request sent for a command, and the tidying of returned HTML.
use vstd::prelude::*;

use crate::editor::{same_field, MarkdownField};
use crate::text::{
    chars_of, chars_range, contains_chars, contains_seq, ends_with, ends_with_chars, is_blank,
    is_blank_str, lemma_trim_len, starts_with, starts_with_chars, string_from_chars, trim,
    trim_chars, trimmed_chars,
};

verus! {

/// The tone asked of a rewrite.
#[derive(Clone, Copy, Debug, PartialEq, Eq)]
pub enum WritingToolsTone {
    Clear,
    Simple,
    Formal,
}

/// What the writing tools are asked to do with the text.
#[derive(Clone, Copy, Debug, PartialEq, Eq)]
pub enum WritingToolsCommand {
    ImproveWording,
    Simplify,
    Concise,
    Summary,
    KeyPoints,
    List,
    TurnIntoQuestion,
}

pub const LABEL_IMPROVE_WORDING: &'static str = "Improve wording";

pub const LABEL_SIMPLIFY: &'static str = "Simplify";

pub const LABEL_CONCISE: &'static str = "Concise";

pub const LABEL_SUMMARY: &'static str = "Summary";

pub const LABEL_KEY_POINTS: &'static str = "Key points";

pub const LABEL_LIST: &'static str = "List";

pub const LABEL_TURN_INTO_QUESTION: &'static str = "Turn into question";

pub const TONE_CLEAR: &'static str = "Clear";

pub const TONE_SIMPLE: &'static str = "Simple";

pub const TONE_FORMAL: &'static str = "Formal";

/// The label of a command.
pub open spec fn command_label(command: WritingToolsCommand) -> Seq<char> {
    match command {
        WritingToolsCommand::ImproveWording => LABEL_IMPROVE_WORDING@,
        WritingToolsCommand::Simplify => LABEL_SIMPLIFY@,
        WritingToolsCommand::Concise => LABEL_CONCISE@,
        WritingToolsCommand::Summary => LABEL_SUMMARY@,
        WritingToolsCommand::KeyPoints => LABEL_KEY_POINTS@,
        WritingToolsCommand::List => LABEL_LIST@,
        WritingToolsCommand::TurnIntoQuestion => LABEL_TURN_INTO_QUESTION@,
    }
}

/// The label of a tone.
pub open spec fn tone_label(tone: WritingToolsTone) -> Seq<char> {
    match tone {
        WritingToolsTone::Clear => TONE_CLEAR@,
        WritingToolsTone::Simple => TONE_SIMPLE@,
        WritingToolsTone::Formal => TONE_FORMAL@,
    }
}

/// The label of a command.
pub fn writing_tools_command_label(command: WritingToolsCommand) -> (r: &'static str)
    ensures
        r@ == command_label(command),
{
    match command {
        WritingToolsCommand::ImproveWording => LABEL_IMPROVE_WORDING,
        WritingToolsCommand::Simplify => LABEL_SIMPLIFY,
        WritingToolsCommand::Concise => LABEL_CONCISE,
        WritingToolsCommand::Summary => LABEL_SUMMARY,
        WritingToolsCommand::KeyPoints => LABEL_KEY_POINTS,
        WritingToolsCommand::List => LABEL_LIST,
        WritingToolsCommand::TurnIntoQuestion => LABEL_TURN_INTO_QUESTION,
    }
}

fn tone_str(tone: WritingToolsTone) -> (r: &'static str)
    ensures
        r@ == tone_label(tone),
{
    match tone {
        WritingToolsTone::Clear => TONE_CLEAR,
        WritingToolsTone::Simple => TONE_SIMPLE,
        WritingToolsTone::Formal => TONE_FORMAL,
    }
}

/// The title over a result: the tone for a rewrite, else the command's
/// label.
pub open spec fn result_title(command: WritingToolsCommand, tone: WritingToolsTone) -> Seq<
    char,
> {
    match command {
        WritingToolsCommand::ImproveWording => tone_label(tone),
        _ => command_label(command),
    }
}

/// The title over a result.
pub fn build_writing_tools_result_title(
    command: WritingToolsCommand,
    tone: WritingToolsTone,
) -> (r: String)
    ensures
        r@ == result_title(command, tone),
{
    let mut out = String::new();
    match command {
        WritingToolsCommand::ImproveWording => out.append(tone_str(tone)),
        _ => out.append(writing_tools_command_label(command)),
    }
    out
}

pub const PROMPT_IMPROVE_WORDING: &'static str = "Rewrite for clarity and natural flow while preserving meaning.\nKeep the same intent and key details.\nAvoid adding new information.\nPreserve formatting unless improving readability.\n\nOutput JSON: result=rewritten text, title=\"\", notes=\"\".";

pub const PROMPT_SIMPLIFY: &'static str = "Simplify the text to be easier to understand and remember.\nUse simpler words and shorter sentences.\nDo not remove important details.\n\nOutput JSON: result=simplified text, title=\"\", notes=\"\".";

pub const PROMPT_CONCISE: &'static str = "Make the text significantly shorter while preserving meaning and key details.\nRemove redundancy, filler, and hedging.\nKeep critical constraints, numbers, and names.\n\nOutput JSON: result=shortened text, title=\"\", notes=\"\".";

pub const PROMPT_SUMMARY: &'static str = "Summarize the input into 1-3 sentences.\nKeep only the main idea and critical details.\nNo bullets.\n\nOutput JSON:\n- title: short 2-6 word heading (or \"\")\n- result: summary paragraph\n- notes: \"\"";

pub const PROMPT_KEY_POINTS: &'static str = "Extract 3-7 key points.\nEach bullet should be <= 12 words.\nUse \"- \" bullets.\n\nOutput JSON:\n- title: \"Key points\"\n- result: bullet list as a single string\n- notes: \"\"";

pub const PROMPT_LIST: &'static str = "Convert the content into an actionable numbered list (3-10 items).\nUse imperative phrasing when possible.\n\nOutput JSON:\n- title: \"List\"\n- result: numbered list as a single string\n- notes: \"\"";

pub const PROMPT_TURN_INTO_QUESTION: &'static str = "Turn the content into 1-5 questions for recall/testing.\nQuestions should be direct and answerable from the input only.\nPrefer \"why/how/what\" questions when useful.\n\nOutput JSON:\n- title: \"Questions\"\n- result: numbered list of questions\n- notes: \"\"";

pub const PROMPT_JSON_ONLY: &'static str = "\n\nReturn only a JSON object with keys: result, title, notes. Do not use code fences.";

pub const PROMPT_TONE: &'static str = "\n\nTONE: ";

pub const PROMPT_ACTION: &'static str = "\nACTION: ";

pub const PROMPT_CONSTRAINTS: &'static str = "\nCONSTRAINTS: ";

pub const PROMPT_TEXT_START: &'static str = "\nTEXT:\n<<<\n";

pub const PROMPT_TEXT_END: &'static str = "\n>>>";

/// The instructions for a command.
pub open spec fn action_prompt(command: WritingToolsCommand) -> Seq<char> {
    match command {
        WritingToolsCommand::ImproveWording => PROMPT_IMPROVE_WORDING@,
        WritingToolsCommand::Simplify => PROMPT_SIMPLIFY@,
        WritingToolsCommand::Concise => PROMPT_CONCISE@,
        WritingToolsCommand::Summary => PROMPT_SUMMARY@,
        WritingToolsCommand::KeyPoints => PROMPT_KEY_POINTS@,
        WritingToolsCommand::List => PROMPT_LIST@,
        WritingToolsCommand::TurnIntoQuestion => PROMPT_TURN_INTO_QUESTION@,
    }
}

fn action_prompt_str(command: WritingToolsCommand) -> (r: &'static str)
    ensures
        r@ == action_prompt(command),
{
    match command {
        WritingToolsCommand::ImproveWording => PROMPT_IMPROVE_WORDING,
        WritingToolsCommand::Simplify => PROMPT_SIMPLIFY,
        WritingToolsCommand::Concise => PROMPT_CONCISE,
        WritingToolsCommand::Summary => PROMPT_SUMMARY,
        WritingToolsCommand::KeyPoints => PROMPT_KEY_POINTS,
        WritingToolsCommand::List => PROMPT_LIST,
        WritingToolsCommand::TurnIntoQuestion => PROMPT_TURN_INTO_QUESTION,
    }
}

/// The request sent for a command: its instructions, the answer format,
/// then the tone, the command, the user's trimmed constraints and the
/// trimmed source text between `<<<` and `>>>`.
pub open spec fn writing_tools_prompt(
    command: WritingToolsCommand,
    tone: WritingToolsTone,
    user_prompt: Seq<char>,
    source_text: Seq<char>,
) -> Seq<char> {
    action_prompt(command) + PROMPT_JSON_ONLY@ + PROMPT_TONE@ + tone_label(tone) + PROMPT_ACTION@
        + command_label(command) + PROMPT_CONSTRAINTS@ + trim(user_prompt) + PROMPT_TEXT_START@
        + trim(source_text) + PROMPT_TEXT_END@
}

/// The request sent for a command.
pub fn build_writing_tools_prompt(
    command: WritingToolsCommand,
    tone: WritingToolsTone,
    user_prompt: &str,
    source_text: &str,
) -> (r: String)
    ensures
        r@ == writing_tools_prompt(command, tone, user_prompt@, source_text@),
{
    let constraints = trimmed_chars(user_prompt);
    let text = trimmed_chars(source_text);
    let constraints_str = string_from_chars(constraints.as_slice());
    let text_str = string_from_chars(text.as_slice());
    let mut prompt = String::new();
    prompt.append(action_prompt_str(command));
    prompt.append(PROMPT_JSON_ONLY);
    prompt.append(PROMPT_TONE);
    prompt.append(tone_str(tone));
    prompt.append(PROMPT_ACTION);
    prompt.append(writing_tools_command_label(command));
    prompt.append(PROMPT_CONSTRAINTS);
    if constraints.len() > 0 {
        prompt.append(constraints_str.as_str());
    } else {
        assert(prompt@ + constraints@ =~= prompt@);
    }
    prompt.append(PROMPT_TEXT_START);
    prompt.append(text_str.as_str());
    prompt.append(PROMPT_TEXT_END);
    prompt
}

pub const EMPTY_PARAGRAPH: &'static str = "<p><br></p>";

pub const LINE_BREAK: &'static str = "<br>";

pub const PARAGRAPH_OPEN: &'static str = "<p>";

pub const PARAGRAPH_CLOSE: &'static str = "</p>";

/// One tidying step on trimmed HTML, if one applies: an empty paragraph or
/// a line break is cut from an edge. When several apply, a trailing break
/// wins over a leading break, which wins over a trailing empty paragraph,
/// which wins over a leading one.
pub open spec fn tidy_step(t: Seq<char>) -> Option<Seq<char>> {
    if ends_with(t, LINE_BREAK@) {
        Some(t.subrange(0, t.len() - LINE_BREAK@.len()))
    } else if starts_with(t, LINE_BREAK@) {
        Some(t.subrange(LINE_BREAK@.len() as int, t.len() as int))
    } else if ends_with(t, EMPTY_PARAGRAPH@) {
        Some(t.subrange(0, t.len() - EMPTY_PARAGRAPH@.len()))
    } else if starts_with(t, EMPTY_PARAGRAPH@) {
        Some(t.subrange(EMPTY_PARAGRAPH@.len() as int, t.len() as int))
    } else {
        None
    }
}

/// Repeats tidying steps until none applies; the result is trimmed.
pub open spec fn tidy_edges(out: Seq<char>) -> Seq<char>
    decreases out.len(),
{
    let t = trim(out);
    match tidy_step(t) {
        Some(next) => {
            proof {
                lemma_trim_len(out);
                reveal_strlit("<br>");
                reveal_strlit("<p><br></p>");
            }
            tidy_edges(next)
        },
        None => t,
    }
}

/// HTML returned by the writing tools, tidied for insertion: empty
/// paragraphs and line breaks are cut from both edges, and a single
/// enclosing paragraph is unwrapped.
pub open spec fn tidy_html(input: Seq<char>) -> Seq<char> {
    let trimmed = tidy_edges(trim(input));
    let inner = trimmed.subrange(3, trimmed.len() - 4);
    if starts_with(trimmed, PARAGRAPH_OPEN@) && ends_with(trimmed, PARAGRAPH_CLOSE@)
        && !contains_seq(inner, PARAGRAPH_OPEN@) && !contains_seq(inner, PARAGRAPH_CLOSE@) {
        inner
    } else {
        trimmed
    }
}

/// Tidies HTML returned by the writing tools for insertion.
pub fn normalize_writing_tools_html(input: &str) -> (r: String)
    ensures
        r@ == tidy_html(input@),
{
    let empty_para = chars_of(EMPTY_PARAGRAPH);
    let br = chars_of(LINE_BREAK);
    proof {
        reveal_strlit("<br>");
        reveal_strlit("<p><br></p>");
    }
    let mut out = trimmed_chars(input);
    let ghost start = out@;
    loop
        invariant
            empty_para@ == EMPTY_PARAGRAPH@,
            br@ == LINE_BREAK@,
            br@.len() == 4,
            empty_para@.len() == 11,
            tidy_edges(start) == tidy_edges(out@),
        ensures
            tidy_edges(start) == trim(out@),
        decreases out.len(),
    {
        let trimmed = trim_chars(out.as_slice());
        proof {
            lemma_trim_len(out@);
        }
        let n = trimmed.len();
        let next: Vec<char>;
        if ends_with_chars(trimmed.as_slice(), br.as_slice()) {
            next = chars_range(trimmed.as_slice(), 0, n - 4);
        } else if starts_with_chars(trimmed.as_slice(), br.as_slice()) {
            next = chars_range(trimmed.as_slice(), 4, n);
        } else if ends_with_chars(trimmed.as_slice(), empty_para.as_slice()) {
            next = chars_range(trimmed.as_slice(), 0, n - 11);
        } else if starts_with_chars(trimmed.as_slice(), empty_para.as_slice()) {
            next = chars_range(trimmed.as_slice(), 11, n);
        } else {
            assert(tidy_step(trimmed@) is None);
            break;
        }
        assert(tidy_step(trimmed@) == Some(next@));
        out = next;
    }
    let trimmed = trim_chars(out.as_slice());
    assert(tidy_edges(start) == trimmed@);
    let n = trimmed.len();
    let p_open = chars_of(PARAGRAPH_OPEN);
    let p_close = chars_of(PARAGRAPH_CLOSE);
    proof {
        reveal_strlit("<p>");
        reveal_strlit("</p>");
    }
    if starts_with_chars(trimmed.as_slice(), p_open.as_slice()) && ends_with_chars(
        trimmed.as_slice(),
        p_close.as_slice(),
    ) {
        proof {
            let t = trimmed@;
            assert(t.subrange(0, 3)[0] == '<' && t.subrange(0, 3)[1] == 'p' && t.subrange(0, 3)[2]
                == '>');
            assert(t[0] == '<' && t[1] == 'p' && t[2] == '>');
            let e = t.subrange(t.len() - 4, t.len() as int);
            assert(e[0] == '<' && e[1] == '/' && e[2] == 'p' && e[3] == '>');
            assert(t[t.len() - 4] == '<' && t[t.len() - 3] == '/');
            assert(n >= 7);
        }
        let inner = chars_range(trimmed.as_slice(), 3, n - 4);
        if !contains_chars(inner.as_slice(), p_open.as_slice()) && !contains_chars(
            inner.as_slice(),
            p_close.as_slice(),
        ) {
            return string_from_chars(inner.as_slice());
        }
    }
    string_from_chars(trimmed.as_slice())
}


/// Whether the writing tools menu is open, and for which side.
#[derive(Clone, Copy, Debug, PartialEq, Eq)]
pub enum WritingToolsMenuState {
    Closed,
    Open(MarkdownField),
}

/// Where the latest writing tools result stands.
#[derive(Clone, Copy, Debug, PartialEq, Eq)]
pub enum WritingToolsResultStatus {
    Idle,
    Loading,
    Ready,
    Error,
}

/// The menu after its button on side `field` is pressed: pressing the
/// button of the side whose menu is open closes it; any other press opens
/// the menu for `field`.
pub open spec fn toggled_menu(current: WritingToolsMenuState, field: MarkdownField) -> WritingToolsMenuState {
    if current == WritingToolsMenuState::Open(field) {
        WritingToolsMenuState::Closed
    } else {
        WritingToolsMenuState::Open(field)
    }
}

/// The writing tools menu after its button on side `field` is pressed. The
/// rest of that step (the other menus, dialogs and the link editor closed,
/// the selection read for the menu forgotten) is
/// `EditorState::toggle_writing_tools`.
pub fn toggle_writing_tools_menu(current: WritingToolsMenuState, field: MarkdownField) -> (r:
    WritingToolsMenuState)
    ensures
        r == toggled_menu(current, field),
{
    match current {
        WritingToolsMenuState::Open(open_field) => {
            if same_field(open_field, field) {
                WritingToolsMenuState::Closed
            } else {
                WritingToolsMenuState::Open(field)
            }
        },
        WritingToolsMenuState::Closed => WritingToolsMenuState::Open(field),
    }
}

/// Pressing the same side's menu button twice puts the menu back as it was,
/// unless it was open for the other side (then it ends closed).
pub proof fn lemma_toggle_twice(current: WritingToolsMenuState, field: MarkdownField)
    ensures
        (current == WritingToolsMenuState::Closed || current == WritingToolsMenuState::Open(field))
            ==> toggled_menu(toggled_menu(current, field), field) == current,
        toggled_menu(toggled_menu(current, field), field) != current ==> toggled_menu(
            toggled_menu(current, field),
            field,
        ) == WritingToolsMenuState::Closed,
{
}

/// The text the writing tools work on: the selected HTML when it is not
/// blank, else the selected text when it is not blank, else the whole side.
pub open spec fn writing_tools_source(
    selection_html: Seq<char>,
    selection_text: Seq<char>,
    fallback_html: Seq<char>,
) -> Seq<char> {
    if !is_blank(selection_html) {
        selection_html
    } else if !is_blank(selection_text) {
        selection_text
    } else {
        fallback_html
    }
}

fn owned(s: &str) -> (r: String)
    ensures
        r@ == s@,
{
    let mut r = String::new();
    r.append(s);
    r
}

/// Picks the text the writing tools work on.
pub fn pick_writing_tools_source(
    selection_html: &str,
    selection_text: &str,
    fallback_html: &str,
) -> (r: String)
    ensures
        r@ == writing_tools_source(selection_html@, selection_text@, fallback_html@),
{
    if !is_blank_str(selection_html) {
        owned(selection_html)
    } else if !is_blank_str(selection_text) {
        owned(selection_text)
    } else {
        owned(fallback_html)
    }
}

/// A request to the writing tools.
#[derive(Clone, Debug, PartialEq)]
pub struct WritingToolsRequest {
    pub field: MarkdownField,
    pub command: WritingToolsCommand,
    pub tone: WritingToolsTone,
    pub user_prompt: String,
    pub source_text: String,
    pub request_prompt: String,
}

impl WritingToolsRequest {
    /// The request for `command` in `tone` on the plain text `source_text`
    /// of side `field`, with the prompt built for them.
    pub fn new(
        field: MarkdownField,
        command: WritingToolsCommand,
        tone: WritingToolsTone,
        user_prompt: String,
        source_text: String,
    ) -> (r: Self)
        ensures
            r.field == field,
            r.command == command,
            r.tone == tone,
            r.user_prompt@ == user_prompt@,
            r.source_text@ == source_text@,
            r.request_prompt@ == writing_tools_prompt(command, tone, user_prompt@, source_text@),
    {
        let request_prompt = build_writing_tools_prompt(
            command,
            tone,
            user_prompt.as_str(),
            source_text.as_str(),
        );
        WritingToolsRequest { field, command, tone, user_prompt, source_text, request_prompt }
    }
}

/// What replaces the text of a side when a result is accepted: the tidied
/// result, unless it is blank.
pub open spec fn replacement_html(result_html: Seq<char>) -> Option<Seq<char>> {
    if is_blank(tidy_html(result_html)) {
        None
    } else {
        Some(tidy_html(result_html))
    }
}

/// The HTML that replaces a side's text when a result is accepted, if any.
pub fn writing_tools_replacement(result_html: &str) -> (r: Option<String>)
    ensures
        match r {
            Some(html) => replacement_html(result_html@) == Some(html@),
            None => replacement_html(result_html@) is None,
        },
{
    let html = normalize_writing_tools_html(result_html);
    if is_blank_str(html.as_str()) {
        None
    } else {
        Some(html)
    }
}


/// Whether the writing tools menu shows on side `field`.
pub fn menu_open_for(state: WritingToolsMenuState, field: MarkdownField) -> (r: bool)
    ensures
        r == (state == WritingToolsMenuState::Open(field)),
{
    match state {
        WritingToolsMenuState::Open(current) => same_field(current, field),
        WritingToolsMenuState::Closed => false,
    }
}

/// Whether the writing tools result shows on side `field`: a result is
/// under way or there, and it is for that side.
pub fn result_open_for(
    status: WritingToolsResultStatus,
    target: Option<MarkdownField>,
    field: MarkdownField,
) -> (r: bool)
    ensures
        r == (status != WritingToolsResultStatus::Idle && target == Some(field)),
{
    let active = match status {
        WritingToolsResultStatus::Idle => false,
        _ => true,
    };
    active && match target {
        Some(current) => same_field(current, field),
        None => false,
    }
}

} // verus!
