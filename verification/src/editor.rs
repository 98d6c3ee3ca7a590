//! Decisions of the card editor: which editable element a field is, the
//! script for a formatting action, what a key press does, the deck label,
//! and save requests.
use vstd::prelude::*;

use crate::scripts::{
    exec_command_script, exec_command_script_text, wrap_selection_script,
    wrap_selection_script_text,
};
use crate::settings::ascii_lower;
use crate::text::{chars_of, is_blank, str_equals, string_from_chars, trim, trimmed_chars};

verus! {

/// The two sides of a card.
#[derive(Clone, Copy, Debug, PartialEq, Eq)]
pub enum MarkdownField {
    Front,
    Back,
}

/// The formatting actions of the editor toolbar.
#[derive(Clone, Copy, Debug, PartialEq, Eq)]
pub enum MarkdownAction {
    Bold,
    Italic,
    Link,
    Quote,
    BulletList,
    NumberedList,
    Code,
    CodeBlock,
}

pub const PROMPT_ELEMENT: &'static str = "prompt";

pub const ANSWER_ELEMENT: &'static str = "answer";

/// The id of the editable element of a side.
pub open spec fn field_element(field: MarkdownField) -> Seq<char> {
    match field {
        MarkdownField::Front => PROMPT_ELEMENT@,
        MarkdownField::Back => ANSWER_ELEMENT@,
    }
}

/// The id of the editable element of a side.
pub fn element_id_for(field: MarkdownField) -> (r: &'static str)
    ensures
        r@ == field_element(field),
{
    match field {
        MarkdownField::Front => PROMPT_ELEMENT,
        MarkdownField::Back => ANSWER_ELEMENT,
    }
}

/// Whether two sides are the same side.
pub(crate) fn same_field(a: MarkdownField, b: MarkdownField) -> (r: bool)
    ensures
        r == (a == b),
{
    match (a, b) {
        (MarkdownField::Front, MarkdownField::Front) => true,
        (MarkdownField::Back, MarkdownField::Back) => true,
        _ => false,
    }
}

/// The script for a formatting action on a side: an editing command for
/// bold, italic, link, quote and lists, a wrap in `<code>` for code, and in
/// `<pre><code>` for a code block.
pub open spec fn format_script_text(field: MarkdownField, action: MarkdownAction) -> Seq<char> {
    let id = field_element(field);
    match action {
        MarkdownAction::Bold => exec_command_script_text(id, "bold"@, None),
        MarkdownAction::Italic => exec_command_script_text(id, "italic"@, None),
        MarkdownAction::Link => exec_command_script_text(id, "createLink"@, Some("https://"@)),
        MarkdownAction::Quote => exec_command_script_text(id, "formatBlock"@, Some("blockquote"@)),
        MarkdownAction::BulletList => exec_command_script_text(id, "insertUnorderedList"@, None),
        MarkdownAction::NumberedList => exec_command_script_text(id, "insertOrderedList"@, None),
        MarkdownAction::Code => wrap_selection_script_text(id, "code"@, None),
        MarkdownAction::CodeBlock => wrap_selection_script_text(id, "pre"@, Some("code"@)),
    }
}

/// The script for a formatting action on a side.
pub fn format_script(field: MarkdownField, action: MarkdownAction) -> (r: String)
    ensures
        r@ == format_script_text(field, action),
{
    let id = element_id_for(field);
    match action {
        MarkdownAction::Bold => exec_command_script(id, "bold", None),
        MarkdownAction::Italic => exec_command_script(id, "italic", None),
        MarkdownAction::Link => exec_command_script(id, "createLink", Some("https://")),
        MarkdownAction::Quote => exec_command_script(id, "formatBlock", Some("blockquote")),
        MarkdownAction::BulletList => exec_command_script(id, "insertUnorderedList", None),
        MarkdownAction::NumberedList => exec_command_script(id, "insertOrderedList", None),
        MarkdownAction::Code => wrap_selection_script(id, "code", None),
        MarkdownAction::CodeBlock => wrap_selection_script(id, "pre", Some("code")),
    }
}

/// The script that undoes (or, when `redo`, redoes) the last edit of a side.
pub open spec fn undo_redo_script_text(field: MarkdownField, redo: bool) -> Seq<char> {
    exec_command_script_text(
        field_element(field),
        if redo {
            "redo"@
        } else {
            "undo"@
        },
        None,
    )
}

/// The script that undoes (or, when `redo`, redoes) the last edit of a side.
pub fn undo_redo_script(field: MarkdownField, redo: bool) -> (r: String)
    ensures
        r@ == undo_redo_script_text(field, redo),
{
    let command = if redo {
        "redo"
    } else {
        "undo"
    };
    exec_command_script(element_id_for(field), command, None)
}

/// A key press in the editor, as far as the editor tells keys apart.
#[derive(Clone, Debug, PartialEq, Eq)]
pub enum EditorKey {
    Tab,
    Enter,
    Backspace,
    Escape,
    Character(String),
    Other,
}

/// The modifier keys held during a key press.
#[derive(Clone, Copy, Debug, PartialEq, Eq)]
pub struct KeyModifiers {
    pub control: bool,
    pub meta: bool,
    pub shift: bool,
}

/// What the editor knows when a key is pressed.
#[derive(Clone, Copy, Debug, PartialEq, Eq)]
pub struct EditorKeyContext {
    /// A new card is being written.
    pub is_create_mode: bool,
    /// A card is selected.
    pub has_selected_card: bool,
    /// The selected card is being deleted.
    pub is_deleting: bool,
    /// The deck list has loaded.
    pub decks_ready: bool,
    /// The side that last had focus.
    pub last_focus_field: MarkdownField,
}

/// What the editor does with a key press.
#[derive(Clone, Copy, Debug, PartialEq, Eq)]
pub enum EditorKeyAction {
    /// Nothing.
    Ignore,
    /// Undo (or, when `true`, redo) in a side.
    UndoRedo(MarkdownField, bool),
    /// Save the card.
    Save,
    /// Start a new card.
    NewCard,
    /// Ask whether to delete the selected card.
    OpenDeleteModal,
    /// Start renaming the deck.
    BeginRename,
    /// Apply a formatting action to a side.
    Format(MarkdownField, MarkdownAction),
    /// Open the link editor for a side.
    OpenLinkEditor(MarkdownField),
    /// Give up the new card.
    CancelNew,
}

/// Whether a character key is the letter `c` (in either case).
pub open spec fn is_letter_key(key: EditorKey, c: char) -> bool {
    match key {
        EditorKey::Character(v) => v@.len() == 1 && ascii_lower(v@[0]) == c,
        _ => false,
    }
}

/// Whether a character key is exactly `c`.
pub open spec fn is_char_key(key: EditorKey, c: char) -> bool {
    match key {
        EditorKey::Character(v) => v@ == seq![c],
        _ => false,
    }
}

/// Undo and redo: with Control or Command, `z` undoes and `y` (or Shift+`z`)
/// redoes in the side that last had focus.
pub open spec fn undo_redo_response(key: EditorKey, m: KeyModifiers, ctx: EditorKeyContext) -> Option<
    EditorKeyAction,
> {
    let wants_undo = is_letter_key(key, 'z');
    let wants_redo = is_letter_key(key, 'y');
    if !(m.control || m.meta) || (!wants_undo && !wants_redo) {
        None
    } else {
        let field = if ctx.last_focus_field == MarkdownField::Front {
            MarkdownField::Front
        } else {
            MarkdownField::Back
        };
        Some(EditorKeyAction::UndoRedo(field, wants_redo || (wants_undo && m.shift)))
    }
}

/// Command shortcuts: Enter saves, `n` starts a new card, Backspace asks to
/// delete the selected card (unless writing a new one or already
/// deleting).
pub open spec fn primary_response(key: EditorKey, m: KeyModifiers, ctx: EditorKeyContext) -> Option<
    EditorKeyAction,
> {
    if !m.meta {
        None
    } else if key == EditorKey::Enter {
        Some(EditorKeyAction::Save)
    } else if is_letter_key(key, 'n') {
        Some(EditorKeyAction::NewCard)
    } else if key == EditorKey::Backspace && ctx.has_selected_card && !ctx.is_create_mode
        && !ctx.is_deleting {
        Some(EditorKeyAction::OpenDeleteModal)
    } else {
        None
    }
}

/// Command+`r` renames the deck once the deck list has loaded.
pub open spec fn rename_response(key: EditorKey, m: KeyModifiers, ctx: EditorKeyContext) -> Option<
    EditorKeyAction,
> {
    if m.meta && is_letter_key(key, 'r') && ctx.decks_ready {
        Some(EditorKeyAction::BeginRename)
    } else {
        None
    }
}

/// Formatting shortcuts while a card is open: Command with `b` (bold), `i`
/// (italic), `k` (link editor), Shift+`7` (numbered list), Shift+`8`
/// (bullet list), in the side that last had focus.
pub open spec fn format_response(key: EditorKey, m: KeyModifiers, ctx: EditorKeyContext) -> Option<
    EditorKeyAction,
> {
    let field = ctx.last_focus_field;
    if !m.meta || !(ctx.is_create_mode || ctx.has_selected_card) {
        None
    } else if is_letter_key(key, 'b') {
        Some(EditorKeyAction::Format(field, MarkdownAction::Bold))
    } else if is_letter_key(key, 'i') {
        Some(EditorKeyAction::Format(field, MarkdownAction::Italic))
    } else if is_letter_key(key, 'k') {
        Some(EditorKeyAction::OpenLinkEditor(field))
    } else if is_char_key(key, '7') && m.shift {
        Some(EditorKeyAction::Format(field, MarkdownAction::NumberedList))
    } else if is_char_key(key, '8') && m.shift {
        Some(EditorKeyAction::Format(field, MarkdownAction::BulletList))
    } else {
        None
    }
}

/// The editor's response to a key press: Tab is left alone; then undo and
/// redo, the command shortcuts, renaming and formatting are tried in turn;
/// otherwise Escape gives up a new card.
pub open spec fn editor_key_response(key: EditorKey, m: KeyModifiers, ctx: EditorKeyContext) -> EditorKeyAction {
    if key == EditorKey::Tab {
        EditorKeyAction::Ignore
    } else if undo_redo_response(key, m, ctx) is Some {
        undo_redo_response(key, m, ctx).unwrap()
    } else if primary_response(key, m, ctx) is Some {
        primary_response(key, m, ctx).unwrap()
    } else if rename_response(key, m, ctx) is Some {
        rename_response(key, m, ctx).unwrap()
    } else if format_response(key, m, ctx) is Some {
        format_response(key, m, ctx).unwrap()
    } else if key == EditorKey::Escape && ctx.is_create_mode {
        EditorKeyAction::CancelNew
    } else {
        EditorKeyAction::Ignore
    }
}

fn letter_key(key: &EditorKey, c: char) -> (r: bool)
    requires
        'a' <= c <= 'z',
    ensures
        r == is_letter_key(*key, c),
{
    match key {
        EditorKey::Character(v) => {
            let chars = chars_of(v.as_str());
            if chars.len() != 1 {
                return false;
            }
            let k = chars[0];
            let lower = if 'A' <= k && k <= 'Z' {
                (((k as u8) + 32) as char)
            } else {
                k
            };
            lower == c
        },
        _ => false,
    }
}

fn char_key(key: &EditorKey, c: char) -> (r: bool)
    ensures
        r == is_char_key(*key, c),
{
    match key {
        EditorKey::Character(v) => {
            let chars = chars_of(v.as_str());
            if chars.len() != 1 {
                proof {
                    if v@ == seq![c] {
                        assert(v@.len() == 1);
                    }
                }
                return false;
            }
            let k = chars[0];
            proof {
                assert(v@ =~= seq![k]);
                if seq![k] == seq![c] {
                    assert(seq![k][0] == seq![c][0]);
                }
            }
            k == c
        },
        _ => false,
    }
}

fn is_key(key: &EditorKey, which: EditorKey) -> (r: bool)
    requires
        !(which is Character),
    ensures
        r == (*key == which),
{
    match (key, which) {
        (EditorKey::Tab, EditorKey::Tab) => true,
        (EditorKey::Enter, EditorKey::Enter) => true,
        (EditorKey::Backspace, EditorKey::Backspace) => true,
        (EditorKey::Escape, EditorKey::Escape) => true,
        (EditorKey::Other, EditorKey::Other) => true,
        _ => false,
    }
}

/// What the editor does with a key press.
pub fn editor_key_action(key: &EditorKey, modifiers: KeyModifiers, ctx: EditorKeyContext) -> (r:
    EditorKeyAction)
    ensures
        r == editor_key_response(*key, modifiers, ctx),
{
    if is_key(key, EditorKey::Tab) {
        return EditorKeyAction::Ignore;
    }
    // Undo and redo.

    if modifiers.control || modifiers.meta {
        let wants_undo = letter_key(key, 'z');
        let wants_redo = letter_key(key, 'y');
        if wants_undo || wants_redo {
            let field = match ctx.last_focus_field {
                MarkdownField::Front => MarkdownField::Front,
                MarkdownField::Back => MarkdownField::Back,
            };
            return EditorKeyAction::UndoRedo(field, wants_redo || (wants_undo && modifiers.shift));
        }
    }
    // Command shortcuts.

    if modifiers.meta {
        if is_key(key, EditorKey::Enter) {
            return EditorKeyAction::Save;
        }
        if letter_key(key, 'n') {
            return EditorKeyAction::NewCard;
        }
        if is_key(key, EditorKey::Backspace) && ctx.has_selected_card && !ctx.is_create_mode
            && !ctx.is_deleting {
            return EditorKeyAction::OpenDeleteModal;
        }
        if letter_key(key, 'r') && ctx.decks_ready {
            return EditorKeyAction::BeginRename;
        }
        if ctx.is_create_mode || ctx.has_selected_card {
            let field = ctx.last_focus_field;
            if letter_key(key, 'b') {
                return EditorKeyAction::Format(field, MarkdownAction::Bold);
            }
            if letter_key(key, 'i') {
                return EditorKeyAction::Format(field, MarkdownAction::Italic);
            }
            if letter_key(key, 'k') {
                return EditorKeyAction::OpenLinkEditor(field);
            }
            if char_key(key, '7') && modifiers.shift {
                return EditorKeyAction::Format(field, MarkdownAction::NumberedList);
            }
            if char_key(key, '8') && modifiers.shift {
                return EditorKeyAction::Format(field, MarkdownAction::BulletList);
            }
        }
    }
    if is_key(key, EditorKey::Escape) && ctx.is_create_mode {
        return EditorKeyAction::CancelNew;
    }
    EditorKeyAction::Ignore
}

/// A deck as offered in the deck menu.
#[derive(Clone, Debug, PartialEq, Eq)]
pub struct DeckOption {
    pub id: u64,
    pub label: String,
}

pub const DECK_FALLBACK_LABEL: &'static str = "Deck";

/// The label of the first option with id `selected`, or `Deck` when there
/// is none.
pub open spec fn label_for_id(opts: Seq<DeckOption>, selected: u64) -> Seq<char>
    decreases opts.len(),
{
    if opts.len() == 0 {
        DECK_FALLBACK_LABEL@
    } else if opts[0].id == selected {
        opts[0].label@
    } else {
        label_for_id(opts.drop_first(), selected)
    }
}

/// The label of the selected deck: that of the first loaded option with its
/// id, or `Deck` when the list has not loaded or has no such deck.
pub open spec fn deck_label(options: Option<Seq<DeckOption>>, selected: u64) -> Seq<char> {
    match options {
        Some(opts) => label_for_id(opts, selected),
        None => DECK_FALLBACK_LABEL@,
    }
}

/// The view of an optional list of deck options.
pub open spec fn opt_options_view(options: Option<&[DeckOption]>) -> Option<Seq<DeckOption>> {
    match options {
        Some(o) => Some(o@),
        None => None,
    }
}

/// The label of the selected deck, given the deck list once it has loaded.
pub fn current_deck_label(options: Option<&[DeckOption]>, selected: u64) -> (r: String)
    ensures
        r@ == deck_label(opt_options_view(options), selected),
{
    let mut out = String::new();
    match options {
        Some(opts) => {
            let mut i: usize = 0;
            assert(opts@.skip(0) =~= opts@);
            while i < opts.len()
                invariant
                    i <= opts.len(),
                    deck_label(opt_options_view(options), selected) == label_for_id(
                        opts@.skip(i as int),
                        selected,
                    ),
                decreases opts.len() - i,
            {
                assert(opts@.skip(i as int)[0] == opts@[i as int]);
                if opts[i].id == selected {
                    return opts[i].label.clone();
                }
                assert(opts@.skip(i as int).drop_first() =~= opts@.skip(i + 1));
                i = i + 1;
            }
            out.append(DECK_FALLBACK_LABEL);
        },
        None => {
            out.append(DECK_FALLBACK_LABEL);
        },
    }
    out
}

/// A request to save the card being edited.
#[derive(Clone, Copy, Debug, PartialEq, Eq)]
pub struct SaveRequest {
    /// Go on to practise after saving.
    pub practice: bool,
    /// Save even when another card has the same prompt.
    pub skip_duplicate_check: bool,
}

impl SaveRequest {
    /// A save that checks for a card with the same prompt first.
    pub fn new(practice: bool) -> (r: Self)
        ensures
            r.practice == practice,
            !r.skip_duplicate_check,
    {
        Self { practice, skip_duplicate_check: false }
    }

    /// A save that skips the duplicate check.
    pub fn force(practice: bool) -> (r: Self)
        ensures
            r.practice == practice,
            r.skip_duplicate_check,
    {
        Self { practice, skip_duplicate_check: true }
    }
}


/// The orders the card list can be shown in.
#[derive(Clone, Copy, Debug, PartialEq, Eq)]
pub enum CardListSort {
    Recent,
    Created,
    Alpha,
}

pub const SORT_RECENT: &'static str = "recent";

pub const SORT_CREATED: &'static str = "created";

pub const SORT_ALPHA: &'static str = "alpha";

/// The form value of a card list order.
pub open spec fn sort_text(sort: CardListSort) -> Seq<char> {
    match sort {
        CardListSort::Created => SORT_CREATED@,
        CardListSort::Alpha => SORT_ALPHA@,
        CardListSort::Recent => SORT_RECENT@,
    }
}

/// The card list order a form value stands for; most recent for any
/// unknown value.
pub open spec fn sort_for_text(value: Seq<char>) -> CardListSort {
    if value == SORT_CREATED@ {
        CardListSort::Created
    } else if value == SORT_ALPHA@ {
        CardListSort::Alpha
    } else {
        CardListSort::Recent
    }
}

/// The form value of a card list order.
pub fn sort_value(sort: CardListSort) -> (r: &'static str)
    ensures
        r@ == sort_text(sort),
{
    match sort {
        CardListSort::Created => SORT_CREATED,
        CardListSort::Alpha => SORT_ALPHA,
        CardListSort::Recent => SORT_RECENT,
    }
}

/// The card list order a form value stands for.
pub fn sort_from_value(value: &str) -> (r: CardListSort)
    ensures
        r == sort_for_text(value@),
{
    if str_equals(value, SORT_CREATED) {
        CardListSort::Created
    } else if str_equals(value, SORT_ALPHA) {
        CardListSort::Alpha
    } else {
        CardListSort::Recent
    }
}

/// An order chosen in the sort menu is read back as the same order.
pub proof fn lemma_sort_round_trip(sort: CardListSort)
    ensures
        sort_for_text(sort_text(sort)) == sort,
{
    reveal_strlit("recent");
    reveal_strlit("created");
    reveal_strlit("alpha");
    assert(SORT_RECENT@[0] != SORT_CREATED@[0]);
    assert(SORT_RECENT@[0] != SORT_ALPHA@[0]);
    assert(SORT_CREATED@[0] != SORT_ALPHA@[0]);
}


pub const FOCUS_EDITABLE_START: &'static str = "document.getElementById(\"";

pub const FOCUS_EDITABLE_END: &'static str = "\")?.focus();";

/// The script that focuses the editable element of a side.
pub open spec fn focus_editable_text(field: MarkdownField) -> Seq<char> {
    FOCUS_EDITABLE_START@ + field_element(field) + FOCUS_EDITABLE_END@
}

/// The script that focuses the editable element of a side, run before a
/// formatting action.
pub fn focus_editable_script(field: MarkdownField) -> (r: String)
    ensures
        r@ == focus_editable_text(field),
{
    let mut out = String::new();
    out.append(FOCUS_EDITABLE_START);
    out.append(element_id_for(field));
    out.append(FOCUS_EDITABLE_END);
    out
}

/// How pasted clipboard content goes into a side.
#[derive(Clone, Debug, PartialEq)]
pub enum PasteChoice {
    /// Insert this HTML (trimmed), once made safe.
    Html(String),
    /// Insert the text converted from Markdown.
    Markdown,
    /// Insert the text as it is.
    Text,
    /// Nothing to paste.
    Nothing,
}

/// How pasted content goes in: HTML when the clipboard has some (not
/// blank), else the text as Markdown when it looks like Markdown, else the
/// text when there is any.
pub fn paste_choice(html: &str, text: &str, looks_like_markdown: bool) -> (r: PasteChoice)
    ensures
        !is_blank(html@) ==> (r matches PasteChoice::Html(h) && h@ == trim(html@)),
        is_blank(html@) && looks_like_markdown ==> r == PasteChoice::Markdown,
        is_blank(html@) && !looks_like_markdown && text@.len() > 0 ==> r == PasteChoice::Text,
        is_blank(html@) && !looks_like_markdown && text@.len() == 0 ==> r == PasteChoice::Nothing,
{
    let trimmed = trimmed_chars(html);
    if trimmed.len() > 0 {
        return PasteChoice::Html(string_from_chars(trimmed.as_slice()));
    }
    if looks_like_markdown {
        PasteChoice::Markdown
    } else if chars_of(text).len() > 0 {
        PasteChoice::Text
    } else {
        PasteChoice::Nothing
    }
}

/// Every editing action that a key press starts (undo, redo, a format, the
/// link editor) acts on the side that last had focus; and Control or
/// Command with `z` undoes there, with Shift or with `y` it redoes there.
pub proof fn lemma_key_actions_use_focused_side(key: EditorKey, m: KeyModifiers, ctx: EditorKeyContext)
    ensures
        editor_key_response(key, m, ctx) matches EditorKeyAction::UndoRedo(f, _) ==> f
            == ctx.last_focus_field,
        editor_key_response(key, m, ctx) matches EditorKeyAction::Format(f, _) ==> f
            == ctx.last_focus_field,
        editor_key_response(key, m, ctx) matches EditorKeyAction::OpenLinkEditor(f) ==> f
            == ctx.last_focus_field,
        key matches EditorKey::Character(v) && v@ == seq!['z'] && (m.control || m.meta) ==> editor_key_response(
            key,
            m,
            ctx,
        ) == EditorKeyAction::UndoRedo(ctx.last_focus_field, m.shift),
        key matches EditorKey::Character(v) && v@ == seq!['y'] && (m.control || m.meta) ==> editor_key_response(
            key,
            m,
            ctx,
        ) == EditorKeyAction::UndoRedo(ctx.last_focus_field, true),
{
    match key {
        EditorKey::Character(v) => {
            if v@ == seq!['z'] {
                assert(v@[0] == 'z');
            }
            if v@ == seq!['y'] {
                assert(v@[0] == 'y');
            }
        },
        _ => {},
    }
}

/// Tab is always left alone; Escape gives up a new card being written
/// whatever modifiers are held; Command with Enter saves and Command with
/// `n` starts a new card.
pub proof fn lemma_command_shortcuts(key: EditorKey, m: KeyModifiers, ctx: EditorKeyContext)
    ensures
        key == EditorKey::Tab ==> editor_key_response(key, m, ctx) == EditorKeyAction::Ignore,
        key == EditorKey::Escape && ctx.is_create_mode ==> editor_key_response(key, m, ctx)
            == EditorKeyAction::CancelNew,
        key == EditorKey::Enter && m.meta ==> editor_key_response(key, m, ctx) == EditorKeyAction::Save,
        key matches EditorKey::Character(v) && v@ == seq!['n'] && m.meta ==> editor_key_response(key, m, ctx)
            == EditorKeyAction::NewCard,
{
    match key {
        EditorKey::Character(v) => {
            if v@ == seq!['n'] {
                assert(v@[0] == 'n');
            }
        },
        _ => {},
    }
}

} // verus!
