//! The editor's guard for unsaved changes: whether the open card has
//! changes not yet saved, and, when it has, leaving it (for another card,
//! another deck or a new card) first asks whether to discard them, the
//! request waiting for the answer.
use vstd::prelude::*;

use crate::tags::{same_tags, strings_view, tags_equal};
use crate::text::{chars_equal, trim, trimmed_chars};
use crate::editor::MarkdownField;
use crate::link::LinkEditorState;
use crate::writing_tools::{WritingToolsMenuState, WritingToolsRequest, WritingToolsResultStatus};

verus! {

/// Whether the save menu is open.
#[derive(Clone, Copy, Debug, PartialEq, Eq)]
pub enum SaveMenuState {
    Closed,
    Open,
}

/// A request that leaves the card being edited. `C` is the card that was
/// picked in the list.
#[derive(Clone, Debug, PartialEq)]
pub enum PendingAction<C> {
    SelectCard(C),
    SelectDeck(u64),
    NewCard,
}

/// The part of the editor's state that the guard decides.
pub struct DiscardGuard<C> {
    /// The request waiting for the answer.
    pub pending_action: Option<PendingAction<C>>,
    /// Whether the "discard changes?" dialog shows.
    pub show_unsaved_modal: bool,
    /// Whether the deck menu is open.
    pub show_deck_menu: bool,
    /// The save menu.
    pub save_menu_state: SaveMenuState,
    /// The writing tools menu.
    pub writing_tools_menu_state: WritingToolsMenuState,
    /// Where the latest writing tools result stands.
    pub writing_tools_result_status: WritingToolsResultStatus,
    /// The side the latest writing tools result is for.
    pub writing_tools_result_target: Option<MarkdownField>,
    /// The writing tools request under way.
    pub writing_tools_request: Option<WritingToolsRequest>,
    /// The link editor, when open.
    pub link_editor_state: Option<LinkEditorState>,
}

/// The guard after asking to carry out `action`: unchanged without unsaved
/// changes; otherwise the action waits, the dialog opens and the deck menu
/// closes (and, for a new card, the save menu too).
pub open spec fn after_request<C>(
    g: DiscardGuard<C>,
    action: PendingAction<C>,
    has_unsaved_changes: bool,
) -> DiscardGuard<C> {
    if !has_unsaved_changes {
        g
    } else {
        DiscardGuard {
            pending_action: Some(action),
            show_unsaved_modal: true,
            show_deck_menu: false,
            save_menu_state: if action is NewCard {
                SaveMenuState::Closed
            } else {
                g.save_menu_state
            },
            ..g
        }
    }
}

/// The guard once the dialog is answered (either way): nothing waits, the
/// dialog, the save menu, the writing tools menu and the link editor are
/// closed, and the writing tools result, its side and the request under way
/// are cleared.
pub open spec fn after_answer<C>(g: DiscardGuard<C>) -> DiscardGuard<C> {
    DiscardGuard {
        pending_action: None,
        show_unsaved_modal: false,
        show_deck_menu: g.show_deck_menu,
        save_menu_state: SaveMenuState::Closed,
        writing_tools_menu_state: WritingToolsMenuState::Closed,
        writing_tools_result_status: WritingToolsResultStatus::Idle,
        writing_tools_result_target: None,
        writing_tools_request: None,
        link_editor_state: None,
    }
}

impl<C> DiscardGuard<C> {
    /// Nothing waiting, no dialog or menu open.
    pub fn new() -> (r: Self)
        ensures
            r.pending_action is None,
            !r.show_unsaved_modal,
            !r.show_deck_menu,
            r.save_menu_state == SaveMenuState::Closed,
            r.writing_tools_menu_state == WritingToolsMenuState::Closed,
            r.writing_tools_result_status == WritingToolsResultStatus::Idle,
            r.writing_tools_result_target is None,
            r.writing_tools_request is None,
            r.link_editor_state is None,
    {
        DiscardGuard {
            pending_action: None,
            show_unsaved_modal: false,
            show_deck_menu: false,
            save_menu_state: SaveMenuState::Closed,
            writing_tools_menu_state: WritingToolsMenuState::Closed,
            writing_tools_result_status: WritingToolsResultStatus::Idle,
            writing_tools_result_target: None,
            writing_tools_request: None,
            link_editor_state: None,
        }
    }

    /// Asks to carry out `action`: without unsaved changes it is handed back
    /// to be carried out now; with unsaved changes it waits for the dialog
    /// and nothing is carried out yet.
    pub fn request(&mut self, action: PendingAction<C>, has_unsaved_changes: bool) -> (r: Option<
        PendingAction<C>,
    >)
        ensures
            *final(self) == after_request(*old(self), action, has_unsaved_changes),
            r == (if has_unsaved_changes {
                None
            } else {
                Some(action)
            }),
    {
        if !has_unsaved_changes {
            return Some(action);
        }
        if let PendingAction::NewCard = action {
            self.save_menu_state = SaveMenuState::Closed;
        }
        self.pending_action = Some(action);
        self.show_unsaved_modal = true;
        self.show_deck_menu = false;
        None
    }

    /// The user discards the changes: the waiting request (if any) is handed
    /// back to be carried out.
    pub fn confirm_discard(&mut self) -> (r: Option<PendingAction<C>>)
        ensures
            r == old(self).pending_action,
            *final(self) == after_answer(*old(self)),
    {
        let action = self.pending_action.take();
        self.close_after_answer();
        action
    }

    /// The user keeps the changes: the waiting request is dropped.
    pub fn cancel_discard(&mut self)
        ensures
            *final(self) == after_answer(*old(self)),
    {
        self.pending_action = None;
        self.close_after_answer();
    }

    fn close_after_answer(&mut self)
        ensures
            final(self).pending_action == old(self).pending_action,
            !final(self).show_unsaved_modal,
            final(self).show_deck_menu == old(self).show_deck_menu,
            final(self).save_menu_state == SaveMenuState::Closed,
            final(self).writing_tools_menu_state == WritingToolsMenuState::Closed,
            final(self).writing_tools_result_status == WritingToolsResultStatus::Idle,
            final(self).writing_tools_result_target is None,
            final(self).writing_tools_request is None,
            final(self).link_editor_state is None,
    {
        self.show_unsaved_modal = false;
        self.save_menu_state = SaveMenuState::Closed;
        self.writing_tools_menu_state = WritingToolsMenuState::Closed;
        self.writing_tools_result_status = WritingToolsResultStatus::Idle;
        self.writing_tools_result_target = None;
        self.writing_tools_request = None;
        self.link_editor_state = None;
    }
}

/// A request held back for unsaved changes is the one carried out when the
/// user discards them, and after either answer nothing waits any more (so a
/// second answer carries out nothing).
pub proof fn lemma_held_request_runs_on_discard<C>(g: DiscardGuard<C>, action: PendingAction<C>)
    ensures
        after_request(g, action, true).pending_action == Some(action),
        after_answer(after_request(g, action, true)).pending_action is None,
        after_answer(after_answer(after_request(g, action, true))).pending_action is None,
{
}


/// The sides of the card last loaded into the editor, as stored.
pub struct LoadedCard {
    pub prompt_html: String,
    pub answer_html: String,
}

/// Whether a card being written holds anything: text on either side (as
/// plain text, not blank) or a tag.
pub open spec fn holds_content(prompt_blank: bool, answer_blank: bool, tags: Seq<Seq<char>>) -> bool {
    !prompt_blank || !answer_blank || tags.len() > 0
}

/// Whether the editor has unsaved changes: never when no card is open; for
/// a new card (or an open card not yet loaded) when it holds anything; for a
/// loaded card when either side differs from it (ignoring surrounding
/// whitespace) or the tags differ (ignoring order).
pub open spec fn unsaved_changes(
    is_create_mode: bool,
    has_selected_card: bool,
    prompt_html: Seq<char>,
    answer_html: Seq<char>,
    prompt_blank: bool,
    answer_blank: bool,
    tags: Seq<Seq<char>>,
    loaded: Option<(Seq<char>, Seq<char>)>,
    loaded_tags: Seq<Seq<char>>,
) -> bool {
    if !(is_create_mode || has_selected_card) {
        false
    } else if is_create_mode {
        holds_content(prompt_blank, answer_blank, tags)
    } else {
        match loaded {
            Some((p, a)) => trim(prompt_html) != trim(p) || trim(answer_html) != trim(a)
                || !same_tags(tags, loaded_tags),
            None => holds_content(prompt_blank, answer_blank, tags),
        }
    }
}

/// The sides of a loaded card as character sequences.
pub open spec fn loaded_view(loaded: Option<&LoadedCard>) -> Option<(Seq<char>, Seq<char>)> {
    match loaded {
        Some(c) => Some((c.prompt_html@, c.answer_html@)),
        None => None,
    }
}

fn same_trimmed(a: &str, b: &str) -> (r: bool)
    ensures
        r == (trim(a@) == trim(b@)),
{
    let ta = trimmed_chars(a);
    let tb = trimmed_chars(b);
    chars_equal(ta.as_slice(), tb.as_slice())
}

/// Whether the editor has unsaved changes. `prompt_blank` and
/// `answer_blank` tell whether each side is blank as plain text.
pub fn has_unsaved_changes(
    is_create_mode: bool,
    has_selected_card: bool,
    prompt_html: &str,
    answer_html: &str,
    prompt_blank: bool,
    answer_blank: bool,
    tags: &[String],
    loaded: Option<&LoadedCard>,
    loaded_tags: &[String],
) -> (r: bool)
    ensures
        r == unsaved_changes(
            is_create_mode,
            has_selected_card,
            prompt_html@,
            answer_html@,
            prompt_blank,
            answer_blank,
            strings_view(tags@),
            loaded_view(loaded),
            strings_view(loaded_tags@),
        ),
        !is_create_mode && has_selected_card && loaded is Some && trim(answer_html@) != trim(
            loaded.unwrap().answer_html@,
        ) ==> r,
        !is_create_mode && has_selected_card && loaded is Some && trim(prompt_html@) != trim(
            loaded.unwrap().prompt_html@,
        ) ==> r,
{
    if !(is_create_mode || has_selected_card) {
        return false;
    }
    if !is_create_mode {
        if let Some(card) = loaded {
            return !same_trimmed(prompt_html, card.prompt_html.as_str()) || !same_trimmed(
                answer_html,
                card.answer_html.as_str(),
            ) || !tags_equal(tags, loaded_tags);
        }
    }
    !prompt_blank || !answer_blank || tags.len() > 0
}


/// A card just loaded, untouched (or with the same tags in another order),
/// has no unsaved changes, and neither has an empty new card.
pub proof fn lemma_untouched_card_is_saved(
    prompt_html: Seq<char>,
    answer_html: Seq<char>,
    prompt_blank: bool,
    answer_blank: bool,
    tags: Seq<Seq<char>>,
    loaded_tags: Seq<Seq<char>>,
)
    requires
        same_tags(tags, loaded_tags),
    ensures
        !unsaved_changes(
            false,
            true,
            prompt_html,
            answer_html,
            prompt_blank,
            answer_blank,
            tags,
            Some((prompt_html, answer_html)),
            loaded_tags,
        ),
        !unsaved_changes(true, false, prompt_html, answer_html, true, true, Seq::empty(), None, loaded_tags),
{
}

/// For a card open as loaded, an edit of the prompt side alone, of the
/// answer side alone (beyond surrounding whitespace), or of the tags alone
/// is an unsaved change; with both sides and the tags as loaded there is
/// none, whatever the sides hold as plain text.
pub proof fn lemma_edit_of_either_side_is_unsaved(
    prompt_html: Seq<char>,
    answer_html: Seq<char>,
    prompt_blank: bool,
    answer_blank: bool,
    tags: Seq<Seq<char>>,
    loaded_prompt: Seq<char>,
    loaded_answer: Seq<char>,
    loaded_tags: Seq<Seq<char>>,
)
    ensures
        trim(prompt_html) != trim(loaded_prompt) ==> unsaved_changes(
            false,
            true,
            prompt_html,
            answer_html,
            prompt_blank,
            answer_blank,
            tags,
            Some((loaded_prompt, loaded_answer)),
            loaded_tags,
        ),
        trim(answer_html) != trim(loaded_answer) ==> unsaved_changes(
            false,
            true,
            prompt_html,
            answer_html,
            prompt_blank,
            answer_blank,
            tags,
            Some((loaded_prompt, loaded_answer)),
            loaded_tags,
        ),
        !same_tags(tags, loaded_tags) ==> unsaved_changes(
            false,
            true,
            prompt_html,
            answer_html,
            prompt_blank,
            answer_blank,
            tags,
            Some((loaded_prompt, loaded_answer)),
            loaded_tags,
        ),
        trim(prompt_html) == trim(loaded_prompt) && trim(answer_html) == trim(loaded_answer)
            && same_tags(tags, loaded_tags) ==> !unsaved_changes(
            false,
            true,
            prompt_html,
            answer_html,
            prompt_blank,
            answer_blank,
            tags,
            Some((loaded_prompt, loaded_answer)),
            loaded_tags,
        ),
{
}

/// With no card open nothing is unsaved; a new card being written is
/// unsaved exactly when it holds something: text on a side (not blank as
/// plain text) or a tag.
pub proof fn lemma_new_card_unsaved_when_it_holds_something(
    has_selected_card: bool,
    prompt_html: Seq<char>,
    answer_html: Seq<char>,
    prompt_blank: bool,
    answer_blank: bool,
    tags: Seq<Seq<char>>,
    loaded: Option<(Seq<char>, Seq<char>)>,
    loaded_tags: Seq<Seq<char>>,
)
    ensures
        !unsaved_changes(false, false, prompt_html, answer_html, prompt_blank, answer_blank, tags, loaded, loaded_tags),
        unsaved_changes(
            true,
            has_selected_card,
            prompt_html,
            answer_html,
            prompt_blank,
            answer_blank,
            tags,
            loaded,
            loaded_tags,
        ) == (!prompt_blank || !answer_blank || tags.len() > 0),
{
}

} // verus!
