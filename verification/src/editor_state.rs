//! The card editor's state as a whole, and each thing that happens to it
//! (a card picked, a new card started or given up, a deck picked, created,
//! renamed or reset, a card deleted or saved, a menu opened or closed) as a
//! step from the state before to the state after. The application performs
//! what a step asks for (a service call, a script, filling the form) and
//! hands the outcome back through the next step.
use vstd::prelude::*;

use crate::discard::{after_answer, after_request, DiscardGuard, PendingAction, SaveMenuState};
use crate::editor::{same_field, MarkdownField, SaveRequest};
use crate::save::{
    after_duplicate_check, after_save, after_save_success, begin_save, save_start,
    AfterDuplicateCheck, AfterSave, DuplicateCheck, SaveStart,
};
use crate::selection::{
    after_cancel_new, after_cards_loaded, after_select, after_start_new, cards_loaded_action,
    cleared, CancelNew, CardSelection, CardsLoaded, SelectionView,
};
use crate::settings::{deck_name_for_save, deck_name_to_save, RENAME_EMPTY_ERROR, RENAME_FAILED_ERROR};
use crate::tags::strings_view;
use crate::text::{chars_of, str_equals, string_from_chars};
use crate::writing_tools::{WritingToolsMenuState, WritingToolsResultStatus};

verus! {

/// Where saving (a card, a new deck, a deck's new name) stands.
#[derive(Clone, Copy, Debug, PartialEq, Eq)]
pub enum SaveState {
    Idle,
    Saving,
    Success,
    Error,
}

/// Where deleting the open card stands.
#[derive(Clone, Copy, Debug, PartialEq, Eq)]
pub enum DeleteState {
    Idle,
    Deleting,
    Success,
    Error,
}

/// Where resetting the deck's learning progress stands.
#[derive(Clone, Copy, Debug, PartialEq, Eq)]
pub enum ResetDeckState {
    Idle,
    Resetting,
    Success,
    Error,
}

/// Where the check for a card with the same prompt stands.
#[derive(Clone, Copy, Debug, PartialEq, Eq)]
pub enum DuplicateCheckState {
    Idle,
    Checking,
    Error,
}

/// The editor's panels, dialogs and progress flags.
pub struct EditorPanels {
    pub save_state: SaveState,
    pub delete_state: DeleteState,
    pub show_delete_modal: bool,
    pub show_validation: bool,
    /// Whether the prompt side takes the focus next.
    pub focus_prompt: bool,
    pub last_focus_field: MarkdownField,
    /// What is typed in the tag field.
    pub tag_input: String,
    pub show_new_deck: bool,
    pub new_deck_name: String,
    pub new_deck_state: SaveState,
    pub show_deck_actions: bool,
    pub is_renaming_deck: bool,
    pub rename_deck_name: String,
    pub rename_deck_state: SaveState,
    pub rename_deck_error: Option<String>,
    pub show_reset_deck_modal: bool,
    pub reset_deck_state: ResetDeckState,
    pub duplicate_check_state: DuplicateCheckState,
    pub show_duplicate_modal: bool,
    /// Whether the save held back by the duplicate dialog goes on to practise.
    pub pending_duplicate_practice: bool,
    /// The text selected when the writing tools menu opened, as HTML and as text.
    pub writing_tools_selection_html: String,
    pub writing_tools_selection_text: String,
}

/// The panels with their texts as character sequences.
#[verifier::ext_equal]
pub struct PanelsView {
    pub save_state: SaveState,
    pub delete_state: DeleteState,
    pub show_delete_modal: bool,
    pub show_validation: bool,
    pub focus_prompt: bool,
    pub last_focus_field: MarkdownField,
    pub tag_input: Seq<char>,
    pub show_new_deck: bool,
    pub new_deck_name: Seq<char>,
    pub new_deck_state: SaveState,
    pub show_deck_actions: bool,
    pub is_renaming_deck: bool,
    pub rename_deck_name: Seq<char>,
    pub rename_deck_state: SaveState,
    pub rename_deck_error: Option<Seq<char>>,
    pub show_reset_deck_modal: bool,
    pub reset_deck_state: ResetDeckState,
    pub duplicate_check_state: DuplicateCheckState,
    pub show_duplicate_modal: bool,
    pub pending_duplicate_practice: bool,
    pub writing_tools_selection_html: Seq<char>,
    pub writing_tools_selection_text: Seq<char>,
}

/// An optional text as an optional character sequence.
pub open spec fn opt_text(s: Option<String>) -> Option<Seq<char>> {
    match s {
        Some(t) => Some(t@),
        None => None,
    }
}

impl View for EditorPanels {
    type V = PanelsView;

    open spec fn view(&self) -> PanelsView {
        PanelsView {
            save_state: self.save_state,
            delete_state: self.delete_state,
            show_delete_modal: self.show_delete_modal,
            show_validation: self.show_validation,
            focus_prompt: self.focus_prompt,
            last_focus_field: self.last_focus_field,
            tag_input: self.tag_input@,
            show_new_deck: self.show_new_deck,
            new_deck_name: self.new_deck_name@,
            new_deck_state: self.new_deck_state,
            show_deck_actions: self.show_deck_actions,
            is_renaming_deck: self.is_renaming_deck,
            rename_deck_name: self.rename_deck_name@,
            rename_deck_state: self.rename_deck_state,
            rename_deck_error: opt_text(self.rename_deck_error),
            show_reset_deck_modal: self.show_reset_deck_modal,
            reset_deck_state: self.reset_deck_state,
            duplicate_check_state: self.duplicate_check_state,
            show_duplicate_modal: self.show_duplicate_modal,
            pending_duplicate_practice: self.pending_duplicate_practice,
            writing_tools_selection_html: self.writing_tools_selection_html@,
            writing_tools_selection_text: self.writing_tools_selection_text@,
        }
    }
}

/// The card editor's state. `C` is a card as listed.
pub struct EditorState<C> {
    /// The deck being edited.
    pub selected_deck: u64,
    /// The open card and its tags.
    pub selection: CardSelection<C>,
    /// The unsaved-changes dialog, the menus and the link editor.
    pub guard: DiscardGuard<C>,
    pub panels: EditorPanels,
    /// The tags the card list is filtered by.
    pub tag_filters: Vec<String>,
}

/// The editor's state as mathematical values.
#[verifier::ext_equal]
pub struct EditorStateView<C> {
    pub selected_deck: u64,
    pub selection: SelectionView<C>,
    pub guard: DiscardGuard<C>,
    pub panels: PanelsView,
    pub tag_filters: Seq<Seq<char>>,
}

impl<C> View for EditorState<C> {
    type V = EditorStateView<C>;

    open spec fn view(&self) -> EditorStateView<C> {
        EditorStateView {
            selected_deck: self.selected_deck,
            selection: self.selection@,
            guard: self.guard,
            panels: self.panels@,
            tag_filters: strings_view(self.tag_filters@),
        }
    }
}

/// The editor as it opens on `deck`: nothing open, picked, waiting or
/// showing, nothing under way, no filter.
pub open spec fn initial_editor<C>(deck: u64) -> EditorStateView<C> {
    EditorStateView {
        selected_deck: deck,
        selection: cleared(),
        guard: DiscardGuard {
            pending_action: None,
            show_unsaved_modal: false,
            show_deck_menu: false,
            save_menu_state: SaveMenuState::Closed,
            writing_tools_menu_state: WritingToolsMenuState::Closed,
            writing_tools_result_status: WritingToolsResultStatus::Idle,
            writing_tools_result_target: None,
            writing_tools_request: None,
            link_editor_state: None,
        },
        panels: PanelsView {
            save_state: SaveState::Idle,
            delete_state: DeleteState::Idle,
            show_delete_modal: false,
            show_validation: false,
            focus_prompt: false,
            last_focus_field: MarkdownField::Front,
            tag_input: Seq::empty(),
            show_new_deck: false,
            new_deck_name: Seq::empty(),
            new_deck_state: SaveState::Idle,
            show_deck_actions: false,
            is_renaming_deck: false,
            rename_deck_name: Seq::empty(),
            rename_deck_state: SaveState::Idle,
            rename_deck_error: None,
            show_reset_deck_modal: false,
            reset_deck_state: ResetDeckState::Idle,
            duplicate_check_state: DuplicateCheckState::Idle,
            show_duplicate_modal: false,
            pending_duplicate_practice: false,
            writing_tools_selection_html: Seq::empty(),
            writing_tools_selection_text: Seq::empty(),
        },
        tag_filters: Seq::empty(),
    }
}

/// The panels with the duplicate check forgotten: idle, its dialog closed.
pub open spec fn duplicate_reset(p: PanelsView) -> PanelsView {
    PanelsView {
        duplicate_check_state: DuplicateCheckState::Idle,
        show_duplicate_modal: false,
        pending_duplicate_practice: false,
        ..p
    }
}

/// The panels with renaming given up: not renaming, idle, no error.
pub open spec fn rename_closed(p: PanelsView) -> PanelsView {
    PanelsView {
        is_renaming_deck: false,
        rename_deck_state: SaveState::Idle,
        rename_deck_error: None,
        ..p
    }
}

/// The guard with the unsaved-changes dialog closed and nothing waiting.
pub open spec fn dialog_closed<C>(g: DiscardGuard<C>) -> DiscardGuard<C> {
    DiscardGuard { show_unsaved_modal: false, pending_action: None, ..g }
}

/// The guard with the writing tools (menu, result, request) and the link
/// editor closed.
pub open spec fn tools_closed<C>(g: DiscardGuard<C>) -> DiscardGuard<C> {
    DiscardGuard {
        writing_tools_menu_state: WritingToolsMenuState::Closed,
        writing_tools_result_status: WritingToolsResultStatus::Idle,
        writing_tools_result_target: None,
        writing_tools_request: None,
        link_editor_state: None,
        ..g
    }
}

/// After picking the card `id` in the list: it is open with its tags to be
/// loaded; the tag field, the save and delete states, the messages and
/// dialogs, the duplicate check, the new-deck form and renaming are reset;
/// nothing waits and the deck menu closes.
pub open spec fn after_select_card<C>(s: EditorStateView<C>, id: u64, card: C) -> EditorStateView<C> {
    EditorStateView {
        selection: after_select(id, card),
        guard: DiscardGuard { show_deck_menu: false, ..dialog_closed(s.guard) },
        panels: PanelsView {
            tag_input: Seq::empty(),
            save_state: SaveState::Idle,
            delete_state: DeleteState::Idle,
            show_validation: false,
            show_delete_modal: false,
            focus_prompt: false,
            show_new_deck: false,
            new_deck_state: SaveState::Idle,
            ..rename_closed(duplicate_reset(s.panels))
        },
        ..s
    }
}

/// After starting a new card: an empty card is written with the prompt
/// focused; the same resets as picking a card, the new deck's name is
/// cleared too, and the save menu closes.
pub open spec fn after_new_card<C>(s: EditorStateView<C>) -> EditorStateView<C> {
    EditorStateView {
        selection: after_start_new(s.selection),
        guard: DiscardGuard {
            show_deck_menu: false,
            save_menu_state: SaveMenuState::Closed,
            ..dialog_closed(s.guard)
        },
        panels: PanelsView {
            tag_input: Seq::empty(),
            save_state: SaveState::Idle,
            delete_state: DeleteState::Idle,
            show_validation: false,
            show_delete_modal: false,
            focus_prompt: true,
            last_focus_field: MarkdownField::Front,
            show_new_deck: false,
            new_deck_state: SaveState::Idle,
            new_deck_name: Seq::empty(),
            ..rename_closed(duplicate_reset(s.panels))
        },
        ..s
    }
}

/// After giving up a new card: unchanged when none was being written;
/// otherwise the selection goes back (see `after_cancel_new`), the tag field,
/// the save and delete states, the messages and the duplicate check are
/// reset, the waiting request is dropped, and the unsaved-changes dialog
/// and the deck menu close.
pub open spec fn after_cancel_new_card<C>(s: EditorStateView<C>) -> EditorStateView<C> {
    if !s.selection.is_create_mode {
        s
    } else {
        EditorStateView {
            selection: after_cancel_new(s.selection),
            guard: DiscardGuard { show_deck_menu: false, ..dialog_closed(s.guard) },
            panels: PanelsView {
                tag_input: Seq::empty(),
                save_state: SaveState::Idle,
                delete_state: DeleteState::Idle,
                show_delete_modal: false,
                show_validation: false,
                ..duplicate_reset(s.panels)
            },
            ..s
        }
    }
}

/// After picking the deck `deck`: nothing is open or remembered, the tag
/// filter is cleared, and every form, message and dialog is reset.
pub open spec fn after_select_deck<C>(s: EditorStateView<C>, deck: u64) -> EditorStateView<C> {
    EditorStateView {
        selected_deck: deck,
        selection: cleared(),
        guard: DiscardGuard { show_deck_menu: false, ..dialog_closed(s.guard) },
        panels: PanelsView {
            show_new_deck: false,
            new_deck_state: SaveState::Idle,
            tag_input: Seq::empty(),
            save_state: SaveState::Idle,
            delete_state: DeleteState::Idle,
            show_delete_modal: false,
            show_validation: false,
            focus_prompt: false,
            show_deck_actions: false,
            new_deck_name: Seq::empty(),
            ..rename_closed(duplicate_reset(s.panels))
        },
        tag_filters: Seq::empty(),
    }
}


/// After asking to carry out `action` (see `after_request`).
pub open spec fn after_request_action<C>(
    s: EditorStateView<C>,
    action: PendingAction<C>,
    has_unsaved_changes: bool,
) -> EditorStateView<C> {
    EditorStateView { guard: after_request(s.guard, action, has_unsaved_changes), ..s }
}

/// After the unsaved-changes dialog is answered, either way (see
/// `after_answer`): nothing waits, and the dialog, the menus, the writing
/// tools and the link editor are closed.
pub open spec fn after_discard_answer<C>(s: EditorStateView<C>) -> EditorStateView<C> {
    EditorStateView { guard: after_answer(s.guard), ..s }
}

/// After asking to delete the open card: with no card open, unchanged;
/// otherwise the delete dialog opens and everything else that shows is
/// closed (the deck menu and actions, renaming, the unsaved-changes dialog
/// and its waiting request, the save menu, the writing tools, the link
/// editor, the duplicate check).
pub open spec fn after_open_delete_modal<C>(s: EditorStateView<C>) -> EditorStateView<C> {
    if s.selection.selected_card_id is None {
        s
    } else {
        EditorStateView {
            guard: DiscardGuard {
                show_deck_menu: false,
                save_menu_state: SaveMenuState::Closed,
                ..tools_closed(dialog_closed(s.guard))
            },
            panels: PanelsView {
                show_deck_actions: false,
                show_delete_modal: true,
                ..duplicate_reset(rename_closed(s.panels))
            },
            ..s
        }
    }
}

/// After the save menu's button is pressed: an open menu closes; a closed
/// one opens, closing the delete and unsaved-changes dialogs, the writing
/// tools and the link editor.
pub open spec fn after_toggle_save_menu<C>(s: EditorStateView<C>) -> EditorStateView<C> {
    if s.guard.save_menu_state == SaveMenuState::Open {
        EditorStateView {
            guard: DiscardGuard { save_menu_state: SaveMenuState::Closed, ..s.guard },
            ..s
        }
    } else {
        EditorStateView {
            guard: DiscardGuard {
                show_unsaved_modal: false,
                save_menu_state: SaveMenuState::Open,
                ..tools_closed(s.guard)
            },
            panels: PanelsView { show_delete_modal: false, ..s.panels },
            ..s
        }
    }
}

/// After the writing tools button of side `field` is pressed: when that
/// side's menu is open it closes and the selection read for it is
/// forgotten; otherwise the menu opens on `field` and everything else that
/// shows is closed (the save menu, the delete and unsaved-changes dialogs,
/// the deck menu and actions, renaming, the new-deck form, the link editor)
/// and the previous result is cleared.
pub open spec fn after_toggle_writing_tools<C>(s: EditorStateView<C>, field: MarkdownField) -> EditorStateView<C> {
    if s.guard.writing_tools_menu_state == WritingToolsMenuState::Open(field) {
        writing_tools_closed(s)
    } else {
        writing_tools_opened(s, field)
    }
}

/// The writing tools menu closed, the selection read for it forgotten.
pub open spec fn writing_tools_closed<C>(s: EditorStateView<C>) -> EditorStateView<C> {
    EditorStateView {
        guard: DiscardGuard { writing_tools_menu_state: WritingToolsMenuState::Closed, ..s.guard },
        panels: PanelsView {
            writing_tools_selection_html: Seq::empty(),
            writing_tools_selection_text: Seq::empty(),
            ..s.panels
        },
        ..s
    }
}

/// The writing tools menu opened on `field`, all else that shows closed.
pub open spec fn writing_tools_opened<C>(s: EditorStateView<C>, field: MarkdownField) -> EditorStateView<C> {
    EditorStateView {
        guard: DiscardGuard {
            save_menu_state: SaveMenuState::Closed,
            show_unsaved_modal: false,
            show_deck_menu: false,
            writing_tools_result_status: WritingToolsResultStatus::Idle,
            writing_tools_result_target: None,
            writing_tools_menu_state: WritingToolsMenuState::Open(field),
            link_editor_state: None,
            ..s.guard
        },
        panels: PanelsView {
            show_delete_modal: false,
            show_deck_actions: false,
            show_new_deck: false,
            new_deck_state: SaveState::Idle,
            ..rename_closed(s.panels)
        },
        ..s
    }
}

/// After asking to delete the open card: nothing happens without an open
/// card or while a delete is under way; otherwise the delete starts, the
/// save state is reset and the delete dialog and save menu close.
pub open spec fn after_begin_delete<C>(s: EditorStateView<C>) -> EditorStateView<C> {
    if s.selection.selected_card_id is None || s.panels.delete_state == DeleteState::Deleting {
        s
    } else {
        EditorStateView {
            guard: DiscardGuard { save_menu_state: SaveMenuState::Closed, ..s.guard },
            panels: PanelsView {
                delete_state: DeleteState::Deleting,
                save_state: SaveState::Idle,
                show_delete_modal: false,
                ..s.panels
            },
            ..s
        }
    }
}

/// After the delete finished: when it succeeded nothing is open or
/// remembered any more and the tag field is cleared; otherwise the error
/// shows.
pub open spec fn after_delete_finished<C>(s: EditorStateView<C>, ok: bool) -> EditorStateView<C> {
    if ok {
        EditorStateView {
            selection: cleared(),
            panels: PanelsView { delete_state: DeleteState::Success, tag_input: Seq::empty(), ..s.panels },
            ..s
        }
    } else {
        EditorStateView { panels: PanelsView { delete_state: DeleteState::Error, ..s.panels }, ..s }
    }
}

/// When the notice of a delete runs out: a success goes back to idle.
pub open spec fn after_delete_notice<C>(s: EditorStateView<C>) -> EditorStateView<C> {
    if s.panels.delete_state == DeleteState::Success {
        EditorStateView { panels: PanelsView { delete_state: DeleteState::Idle, ..s.panels }, ..s }
    } else {
        s
    }
}


/// After asking to create the deck named in the new-deck form: when the
/// name can be saved (see `deck_name_to_save`) the creation starts;
/// otherwise nothing changes.
pub open spec fn after_begin_create_deck<C>(s: EditorStateView<C>) -> EditorStateView<C> {
    if deck_name_to_save(s.panels.new_deck_name, s.panels.new_deck_state == SaveState::Saving) is Some {
        EditorStateView { panels: PanelsView { new_deck_state: SaveState::Saving, ..s.panels }, ..s }
    } else {
        s
    }
}

/// After the deck creation finished: when it gave the new deck `deck`, that
/// deck is open with a new card started, the new-deck form is cleared and
/// closed, the deck menu and actions, renaming, the delete state and dialog,
/// the messages, the unsaved-changes dialog (and its waiting request) and
/// the save menu are reset; when it failed, the error shows.
pub open spec fn after_create_deck_finished<C>(s: EditorStateView<C>, created: Option<u64>) -> EditorStateView<C> {
    match created {
        Some(deck) => EditorStateView {
            selected_deck: deck,
            selection: SelectionView {
                selected_card_id: None,
                last_selected: None,
                is_create_mode: true,
                ..s.selection
            },
            guard: DiscardGuard {
                show_deck_menu: false,
                save_menu_state: SaveMenuState::Closed,
                ..dialog_closed(s.guard)
            },
            panels: PanelsView {
                new_deck_name: Seq::empty(),
                show_new_deck: false,
                show_deck_actions: false,
                delete_state: DeleteState::Idle,
                show_delete_modal: false,
                show_validation: false,
                focus_prompt: false,
                new_deck_state: SaveState::Success,
                ..rename_closed(s.panels)
            },
            ..s
        },
        None => EditorStateView {
            panels: PanelsView { new_deck_state: SaveState::Error, ..s.panels },
            ..s
        },
    }
}

/// After starting to rename the deck whose name is `label`: the rename form
/// shows that name, idle and without error; the deck menu and actions and
/// the new-deck form close.
pub open spec fn after_begin_rename<C>(s: EditorStateView<C>, label: Seq<char>) -> EditorStateView<C> {
    EditorStateView {
        guard: DiscardGuard { show_deck_menu: false, ..s.guard },
        panels: PanelsView {
            rename_deck_name: label,
            rename_deck_state: SaveState::Idle,
            rename_deck_error: None,
            show_deck_actions: false,
            show_new_deck: false,
            new_deck_state: SaveState::Idle,
            is_renaming_deck: true,
            ..s.panels
        },
        ..s
    }
}

/// After asking to save the new name: when it can be saved the rename
/// starts, without error; otherwise the form says the name cannot be empty.
pub open spec fn after_begin_commit_rename<C>(s: EditorStateView<C>) -> EditorStateView<C> {
    if deck_name_to_save(s.panels.rename_deck_name, s.panels.rename_deck_state == SaveState::Saving) is Some {
        EditorStateView {
            panels: PanelsView {
                rename_deck_state: SaveState::Saving,
                rename_deck_error: None,
                ..s.panels
            },
            ..s
        }
    } else {
        EditorStateView {
            panels: PanelsView { rename_deck_error: Some(RENAME_EMPTY_ERROR@), ..s.panels },
            ..s
        }
    }
}

/// After the rename finished: on success the form closes; on failure it
/// stays, saying the rename failed.
pub open spec fn after_rename_finished<C>(s: EditorStateView<C>, ok: bool) -> EditorStateView<C> {
    if ok {
        EditorStateView {
            panels: PanelsView { rename_deck_state: SaveState::Success, is_renaming_deck: false, ..s.panels },
            ..s
        }
    } else {
        EditorStateView {
            panels: PanelsView {
                rename_deck_state: SaveState::Error,
                rename_deck_error: Some(RENAME_FAILED_ERROR@),
                ..s.panels
            },
            ..s
        }
    }
}

/// When the rename failure notice runs out: that message goes away (any
/// other stays).
pub open spec fn after_rename_error_expired<C>(s: EditorStateView<C>) -> EditorStateView<C> {
    if s.panels.rename_deck_error == Some(RENAME_FAILED_ERROR@) {
        EditorStateView { panels: PanelsView { rename_deck_error: None, ..s.panels }, ..s }
    } else {
        s
    }
}

/// After asking to reset the deck's progress: the reset dialog opens, idle;
/// the deck menu and actions and renaming close.
pub open spec fn after_open_reset_deck_modal<C>(s: EditorStateView<C>) -> EditorStateView<C> {
    EditorStateView {
        guard: DiscardGuard { show_deck_menu: false, ..s.guard },
        panels: PanelsView {
            show_deck_actions: false,
            reset_deck_state: ResetDeckState::Idle,
            show_reset_deck_modal: true,
            ..rename_closed(s.panels)
        },
        ..s
    }
}

/// After the reset finished: on success the dialog closes; on failure it
/// stays, showing the error.
pub open spec fn after_reset_finished<C>(s: EditorStateView<C>, ok: bool) -> EditorStateView<C> {
    if ok {
        EditorStateView {
            panels: PanelsView {
                reset_deck_state: ResetDeckState::Success,
                show_reset_deck_modal: false,
                ..s.panels
            },
            ..s
        }
    } else {
        EditorStateView {
            panels: PanelsView { reset_deck_state: ResetDeckState::Error, ..s.panels },
            ..s
        }
    }
}

/// How a request to save starts in state `s` (see `save_start`), given
/// whether there are unsaved changes and whether a side is blank.
pub open spec fn save_start_in<C>(
    s: EditorStateView<C>,
    has_unsaved_changes: bool,
    content_blank: bool,
    request: SaveRequest,
) -> SaveStart {
    save_start(
        s.panels.save_state == SaveState::Saving,
        s.panels.duplicate_check_state == DuplicateCheckState::Checking,
        has_unsaved_changes,
        content_blank,
        s.selection.is_create_mode,
        s.selection.selected_card_id,
        request,
    )
}

/// After a request to save that starts as `start`: unchanged when it is
/// ignored; the validation message when a side is blank; when it goes
/// ahead, the duplicate check is reset, the unsaved-changes dialog (and its
/// waiting request) and the save menu close, and either the duplicate check
/// or the write starts.
pub open spec fn after_save_start<C>(s: EditorStateView<C>, start: SaveStart) -> EditorStateView<C> {
    match start {
        SaveStart::Ignore => s,
        SaveStart::ShowValidation => EditorStateView {
            panels: PanelsView { show_validation: true, ..s.panels },
            ..s
        },
        SaveStart::Proceed { check_duplicates, .. } => {
            let p = duplicate_reset(s.panels);
            EditorStateView {
                guard: DiscardGuard { save_menu_state: SaveMenuState::Closed, ..dialog_closed(s.guard) },
                panels: if check_duplicates {
                    PanelsView { duplicate_check_state: DuplicateCheckState::Checking, ..p }
                } else {
                    PanelsView { save_state: SaveState::Saving, ..p }
                },
                ..s
            }
        },
    }
}

/// After the duplicate check answered for a save that goes on to practise
/// when `practice`: a card with the same prompt opens the dialog that asks
/// whether to save anyway (keeping `practice`); none starts the write; a
/// failure shows the error.
pub open spec fn after_duplicate_checked<C>(s: EditorStateView<C>, answer: DuplicateCheck, practice: bool) -> EditorStateView<C> {
    EditorStateView {
        panels: match answer {
            DuplicateCheck::Found => PanelsView {
                duplicate_check_state: DuplicateCheckState::Idle,
                show_duplicate_modal: true,
                pending_duplicate_practice: practice,
                ..s.panels
            },
            DuplicateCheck::NotFound => PanelsView {
                duplicate_check_state: DuplicateCheckState::Idle,
                save_state: SaveState::Saving,
                ..s.panels
            },
            DuplicateCheck::Failed => PanelsView {
                duplicate_check_state: DuplicateCheckState::Error,
                ..s.panels
            },
        },
        ..s
    }
}

/// After the card was written: the save shows as done, the delete state,
/// the delete dialog, the validation message and the tag field are reset
/// and the save menu closes. Then, for a new card saved to practise,
/// nothing more (a session opens); for another new card, its tags are
/// cleared and the prompt takes the focus; for an edited card that the
/// write gave back as `saved`, it stays open as the card picked last, with
/// its current tags as the ones to go back to, and the prompt takes the
/// focus.
pub open spec fn after_save_succeeded<C>(
    s: EditorStateView<C>,
    practice: bool,
    saved: Option<(u64, C)>,
) -> EditorStateView<C> {
    let base = EditorStateView {
        guard: DiscardGuard { save_menu_state: SaveMenuState::Closed, ..s.guard },
        panels: PanelsView {
            save_state: SaveState::Success,
            delete_state: DeleteState::Idle,
            show_delete_modal: false,
            show_validation: false,
            tag_input: Seq::empty(),
            ..s.panels
        },
        ..s
    };
    if s.selection.is_create_mode {
        if practice {
            base
        } else {
            EditorStateView {
                selection: SelectionView { card_tags: Seq::empty(), ..s.selection },
                panels: PanelsView { focus_prompt: true, ..base.panels },
                ..base
            }
        }
    } else {
        match saved {
            Some((id, card)) => EditorStateView {
                selection: SelectionView {
                    selected_card_id: Some(id),
                    last_selected: Some((id, card)),
                    last_selected_tags: s.selection.card_tags,
                    ..s.selection
                },
                panels: PanelsView { focus_prompt: true, ..base.panels },
                ..base
            },
            None => base,
        }
    }
}

/// The id that a write gave back.
pub open spec fn saved_id<C>(saved: Option<(u64, C)>) -> Option<u64> {
    match saved {
        Some((id, _)) => Some(id),
        None => None,
    }
}

/// The duplicate dialog closed and the check forgotten.
pub open spec fn after_close_duplicate_modal<C>(s: EditorStateView<C>) -> EditorStateView<C> {
    EditorStateView { panels: duplicate_reset(s.panels), ..s }
}

/// After the card list loaded with `count` cards: an empty list, when no new
/// card is being written, starts one (see `after_cards_loaded`) with the
/// save and delete states, the messages, the delete and unsaved-changes
/// dialogs (and the waiting request) reset and the prompt focused;
/// otherwise nothing changes (picking the first card is its own step).
pub open spec fn after_cards_loaded_in<C>(s: EditorStateView<C>, count: nat) -> EditorStateView<C> {
    if count == 0 && !s.selection.is_create_mode {
        EditorStateView {
            selection: after_cards_loaded(s.selection, count),
            guard: dialog_closed(s.guard),
            panels: PanelsView {
                save_state: SaveState::Idle,
                delete_state: DeleteState::Idle,
                show_delete_modal: false,
                show_validation: false,
                focus_prompt: true,
                ..s.panels
            },
            ..s
        }
    } else {
        s
    }
}

impl<C> EditorState<C> {
    /// The editor as it opens on `deck`.
    pub fn new(deck: u64) -> (r: Self)
        ensures
            r@ == initial_editor::<C>(deck),
    {
        let r = EditorState {
            selected_deck: deck,
            selection: CardSelection::new(),
            guard: DiscardGuard::new(),
            panels: EditorPanels {
                save_state: SaveState::Idle,
                delete_state: DeleteState::Idle,
                show_delete_modal: false,
                show_validation: false,
                focus_prompt: false,
                last_focus_field: MarkdownField::Front,
                tag_input: String::new(),
                show_new_deck: false,
                new_deck_name: String::new(),
                new_deck_state: SaveState::Idle,
                show_deck_actions: false,
                is_renaming_deck: false,
                rename_deck_name: String::new(),
                rename_deck_state: SaveState::Idle,
                rename_deck_error: None,
                show_reset_deck_modal: false,
                reset_deck_state: ResetDeckState::Idle,
                duplicate_check_state: DuplicateCheckState::Idle,
                show_duplicate_modal: false,
                pending_duplicate_practice: false,
                writing_tools_selection_html: String::new(),
                writing_tools_selection_text: String::new(),
            },
            tag_filters: Vec::new(),
        };
        assert(r@ =~= initial_editor::<C>(deck));
        r
    }

    fn reset_duplicate(&mut self)
        ensures
            final(self)@ == (EditorStateView { panels: duplicate_reset(old(self)@.panels), ..old(self)@ }),
    {
        self.panels.duplicate_check_state = DuplicateCheckState::Idle;
        self.panels.show_duplicate_modal = false;
        self.panels.pending_duplicate_practice = false;
        assert(self@ =~= (EditorStateView { panels: duplicate_reset(old(self)@.panels), ..old(self)@ }));
    }

    fn close_rename(&mut self)
        ensures
            final(self)@ == (EditorStateView { panels: rename_closed(old(self)@.panels), ..old(self)@ }),
    {
        self.panels.is_renaming_deck = false;
        self.panels.rename_deck_state = SaveState::Idle;
        self.panels.rename_deck_error = None;
        assert(self@ =~= (EditorStateView { panels: rename_closed(old(self)@.panels), ..old(self)@ }));
    }

    fn close_dialog(&mut self)
        ensures
            final(self)@ == (EditorStateView { guard: dialog_closed(old(self)@.guard), ..old(self)@ }),
    {
        self.guard.show_unsaved_modal = false;
        self.guard.pending_action = None;
        assert(self@ =~= (EditorStateView { guard: dialog_closed(old(self)@.guard), ..old(self)@ }));
    }

    fn close_tools(&mut self)
        ensures
            final(self)@ == (EditorStateView { guard: tools_closed(old(self)@.guard), ..old(self)@ }),
    {
        self.guard.writing_tools_menu_state = WritingToolsMenuState::Closed;
        self.guard.writing_tools_result_status = WritingToolsResultStatus::Idle;
        self.guard.writing_tools_result_target = None;
        self.guard.writing_tools_request = None;
        self.guard.link_editor_state = None;
        assert(self@ =~= (EditorStateView { guard: tools_closed(old(self)@.guard), ..old(self)@ }));
    }

    /// Opens the card `id` picked in the list (the application shows its
    /// sides in the form).
    pub fn select_card(&mut self, id: u64, card: C)
        ensures
            final(self)@ == after_select_card(old(self)@, id, card),
    {
        self.reset_duplicate();
        self.close_rename();
        self.close_dialog();
        self.selection.select_card(id, card);
        self.guard.show_deck_menu = false;
        self.panels.tag_input = String::new();
        self.panels.save_state = SaveState::Idle;
        self.panels.delete_state = DeleteState::Idle;
        self.panels.show_validation = false;
        self.panels.show_delete_modal = false;
        self.panels.focus_prompt = false;
        self.panels.show_new_deck = false;
        self.panels.new_deck_state = SaveState::Idle;
        assert(self@ =~= after_select_card(old(self)@, id, card));
    }

    /// Starts a new card (the application clears the form).
    pub fn new_card(&mut self)
        ensures
            final(self)@ == after_new_card(old(self)@),
    {
        self.reset_duplicate();
        self.close_rename();
        self.close_dialog();
        self.selection.start_new_card();
        self.guard.show_deck_menu = false;
        self.guard.save_menu_state = SaveMenuState::Closed;
        self.panels.tag_input = String::new();
        self.panels.save_state = SaveState::Idle;
        self.panels.delete_state = DeleteState::Idle;
        self.panels.show_validation = false;
        self.panels.show_delete_modal = false;
        self.panels.focus_prompt = true;
        self.panels.last_focus_field = MarkdownField::Front;
        self.panels.show_new_deck = false;
        self.panels.new_deck_state = SaveState::Idle;
        self.panels.new_deck_name = String::new();
        assert(self@ =~= after_new_card(old(self)@));
    }

    /// Gives up the new card being written; the result tells the
    /// application what to show in the form.
    pub fn cancel_new(&mut self) -> (r: CancelNew)
        ensures
            final(self)@ == after_cancel_new_card(old(self)@),
            r == (if !old(self)@.selection.is_create_mode {
                CancelNew::NotCreating
            } else if old(self)@.selection.last_selected is Some {
                CancelNew::RestoreLastCard
            } else {
                CancelNew::ClearForm
            }),
    {
        if !self.selection.is_create_mode {
            return CancelNew::NotCreating;
        }
        let r = self.selection.cancel_new();
        self.reset_duplicate();
        self.close_dialog();
        self.guard.show_deck_menu = false;
        self.panels.tag_input = String::new();
        self.panels.save_state = SaveState::Idle;
        self.panels.delete_state = DeleteState::Idle;
        self.panels.show_delete_modal = false;
        self.panels.show_validation = false;
        assert(self@ =~= after_cancel_new_card(old(self)@));
        r
    }

    /// Opens the deck `deck` (the application clears the form).
    pub fn select_deck(&mut self, deck: u64)
        ensures
            final(self)@ == after_select_deck(old(self)@, deck),
    {
        self.reset_duplicate();
        self.close_rename();
        self.close_dialog();
        self.selected_deck = deck;
        self.selection.clear();
        self.tag_filters = Vec::new();
        self.guard.show_deck_menu = false;
        self.panels.show_new_deck = false;
        self.panels.new_deck_state = SaveState::Idle;
        self.panels.tag_input = String::new();
        self.panels.save_state = SaveState::Idle;
        self.panels.delete_state = DeleteState::Idle;
        self.panels.show_delete_modal = false;
        self.panels.show_validation = false;
        self.panels.focus_prompt = false;
        self.panels.show_deck_actions = false;
        self.panels.new_deck_name = String::new();
        assert(self@ =~= after_select_deck(old(self)@, deck));
    }
    /// Asks to carry out `action`: without unsaved changes it is handed back
    /// to be carried out now; otherwise it waits for the unsaved-changes
    /// dialog.
    pub fn request(&mut self, action: PendingAction<C>, has_unsaved_changes: bool) -> (r: Option<
        PendingAction<C>,
    >)
        ensures
            final(self)@ == after_request_action(old(self)@, action, has_unsaved_changes),
            r == (if has_unsaved_changes {
                None
            } else {
                Some(action)
            }),
    {
        let r = self.guard.request(action, has_unsaved_changes);
        assert(self@ =~= after_request_action(old(self)@, action, has_unsaved_changes));
        r
    }

    /// The user discards the changes: the waiting request (if any) is handed
    /// back to be carried out.
    pub fn confirm_discard(&mut self) -> (r: Option<PendingAction<C>>)
        ensures
            r == old(self)@.guard.pending_action,
            final(self)@ == after_discard_answer(old(self)@),
    {
        let r = self.guard.confirm_discard();
        assert(self@ =~= after_discard_answer(old(self)@));
        r
    }

    /// The user keeps the changes: the waiting request is dropped.
    pub fn cancel_discard(&mut self)
        ensures
            final(self)@ == after_discard_answer(old(self)@),
    {
        self.guard.cancel_discard();
        assert(self@ =~= after_discard_answer(old(self)@));
    }

    /// Opens the dialog that asks whether to delete the open card.
    pub fn open_delete_modal(&mut self)
        ensures
            final(self)@ == after_open_delete_modal(old(self)@),
    {
        if self.selection.selected_card_id.is_none() {
            return;
        }
        self.close_rename();
        self.reset_duplicate();
        self.close_dialog();
        self.close_tools();
        self.guard.show_deck_menu = false;
        self.guard.save_menu_state = SaveMenuState::Closed;
        self.panels.show_deck_actions = false;
        self.panels.show_delete_modal = true;
        assert(self@ =~= after_open_delete_modal(old(self)@));
    }

    /// Closes the delete dialog.
    pub fn close_delete_modal(&mut self)
        ensures
            final(self)@ == (EditorStateView {
                panels: PanelsView { show_delete_modal: false, ..old(self)@.panels },
                ..old(self)@
            }),
    {
        self.panels.show_delete_modal = false;
        assert(self@ =~= (EditorStateView {
            panels: PanelsView { show_delete_modal: false, ..old(self)@.panels },
            ..old(self)@
        }));
    }

    /// Presses the save menu's button.
    pub fn toggle_save_menu(&mut self)
        ensures
            final(self)@ == after_toggle_save_menu(old(self)@),
    {
        if matches!(self.guard.save_menu_state, SaveMenuState::Open) {
            self.guard.save_menu_state = SaveMenuState::Closed;
            assert(self@ =~= after_toggle_save_menu(old(self)@));
            return;
        }
        self.close_tools();
        self.guard.show_unsaved_modal = false;
        self.guard.save_menu_state = SaveMenuState::Open;
        self.panels.show_delete_modal = false;
        assert(self@ =~= after_toggle_save_menu(old(self)@));
    }

    /// Closes the save menu.
    pub fn close_save_menu(&mut self)
        ensures
            final(self)@ == (EditorStateView {
                guard: DiscardGuard { save_menu_state: SaveMenuState::Closed, ..old(self)@.guard },
                ..old(self)@
            }),
    {
        self.guard.save_menu_state = SaveMenuState::Closed;
        assert(self@ =~= (EditorStateView {
            guard: DiscardGuard { save_menu_state: SaveMenuState::Closed, ..old(self)@.guard },
            ..old(self)@
        }));
    }

    /// Presses the writing tools button of side `field`. The result tells
    /// whether the menu opened, so that the application reads the text
    /// selected on that side and hands it to `writing_tools_selection_read`.
    pub fn toggle_writing_tools(&mut self, field: MarkdownField) -> (opened: bool)
        ensures
            final(self)@ == after_toggle_writing_tools(old(self)@, field),
            opened == (old(self)@.guard.writing_tools_menu_state != WritingToolsMenuState::Open(field)),
    {
        let is_open_here = match self.guard.writing_tools_menu_state {
            WritingToolsMenuState::Open(current) => same_field(current, field),
            WritingToolsMenuState::Closed => false,
        };
        if is_open_here {
            self.close_writing_tools_menu();
            false
        } else {
            self.open_writing_tools_menu(field);
            true
        }
    }

    fn close_writing_tools_menu(&mut self)
        ensures
            final(self)@ == writing_tools_closed(old(self)@),
    {
        self.guard.writing_tools_menu_state = WritingToolsMenuState::Closed;
        self.panels.writing_tools_selection_html = String::new();
        self.panels.writing_tools_selection_text = String::new();
        assert(self@.panels =~= writing_tools_closed(old(self)@).panels);
    }

    fn open_writing_tools_menu(&mut self, field: MarkdownField)
        ensures
            final(self)@ == writing_tools_opened(old(self)@, field),
    {
        self.close_rename();
        self.guard.save_menu_state = SaveMenuState::Closed;
        self.guard.show_unsaved_modal = false;
        self.guard.show_deck_menu = false;
        self.guard.writing_tools_result_status = WritingToolsResultStatus::Idle;
        self.guard.writing_tools_result_target = None;
        self.guard.writing_tools_menu_state = WritingToolsMenuState::Open(field);
        self.guard.link_editor_state = None;
        self.panels.show_delete_modal = false;
        self.panels.show_deck_actions = false;
        self.panels.show_new_deck = false;
        self.panels.new_deck_state = SaveState::Idle;
        assert(self@.panels =~= writing_tools_opened(old(self)@, field).panels);
    }

    /// Keeps the text that was selected when the writing tools menu opened
    /// (as HTML and as text), or nothing when none could be read.
    pub fn writing_tools_selection_read(&mut self, snapshot: Option<(String, String)>)
        ensures
            final(self)@ == (EditorStateView {
                panels: PanelsView {
                    writing_tools_selection_html: match snapshot {
                        Some((html, _)) => html@,
                        None => Seq::empty(),
                    },
                    writing_tools_selection_text: match snapshot {
                        Some((_, text)) => text@,
                        None => Seq::empty(),
                    },
                    ..old(self)@.panels
                },
                ..old(self)@
            }),
    {
        match snapshot {
            Some((html, text)) => {
                self.panels.writing_tools_selection_html = html;
                self.panels.writing_tools_selection_text = text;
            },
            None => {
                self.panels.writing_tools_selection_html = String::new();
                self.panels.writing_tools_selection_text = String::new();
            },
        }
        assert(self@.panels =~= (PanelsView {
            writing_tools_selection_html: match snapshot {
                Some((html, _)) => html@,
                None => Seq::empty(),
            },
            writing_tools_selection_text: match snapshot {
                Some((_, text)) => text@,
                None => Seq::empty(),
            },
            ..old(self)@.panels
        }));
    }

    /// Starts deleting the open card: the result is the card to delete, or
    /// `None` (and nothing changes) without an open card or while a delete
    /// is under way.
    pub fn begin_delete(&mut self) -> (r: Option<u64>)
        ensures
            final(self)@ == after_begin_delete(old(self)@),
            r == (if old(self)@.panels.delete_state == DeleteState::Deleting {
                None
            } else {
                old(self)@.selection.selected_card_id
            }),
    {
        let id = match self.selection.selected_card_id {
            Some(id) => id,
            None => {
                return None;
            },
        };
        if matches!(self.panels.delete_state, DeleteState::Deleting) {
            return None;
        }
        self.panels.delete_state = DeleteState::Deleting;
        self.panels.save_state = SaveState::Idle;
        self.panels.show_delete_modal = false;
        self.guard.save_menu_state = SaveMenuState::Closed;
        assert(self@ =~= after_begin_delete(old(self)@));
        Some(id)
    }

    /// Takes note that the delete finished, successfully when `ok` (the
    /// application then clears the form and reloads the list).
    pub fn delete_finished(&mut self, ok: bool)
        ensures
            final(self)@ == after_delete_finished(old(self)@, ok),
    {
        if ok {
            self.panels.delete_state = DeleteState::Success;
            self.selection.clear();
            self.panels.tag_input = String::new();
        } else {
            self.panels.delete_state = DeleteState::Error;
        }
        assert(self@ =~= after_delete_finished(old(self)@, ok));
    }

    /// The notice of a delete has run out.
    pub fn delete_notice_expired(&mut self)
        ensures
            final(self)@ == after_delete_notice(old(self)@),
    {
        if matches!(self.panels.delete_state, DeleteState::Success) {
            self.panels.delete_state = DeleteState::Idle;
        }
        assert(self@ =~= after_delete_notice(old(self)@));
    }

    /// Takes note that the card list loaded with `count` cards; the result
    /// says what the application does (clear the form for a new card, or
    /// pick the first card with `select_card`).
    pub fn cards_loaded(&mut self, count: usize) -> (r: CardsLoaded)
        ensures
            r == cards_loaded_action(old(self)@.selection, count as nat),
            final(self)@ == after_cards_loaded_in(old(self)@, count as nat),
    {
        if count == 0 && !self.selection.is_create_mode {
            self.close_dialog();
            self.panels.save_state = SaveState::Idle;
            self.panels.delete_state = DeleteState::Idle;
            self.panels.show_delete_modal = false;
            self.panels.show_validation = false;
            self.panels.focus_prompt = true;
            let r = self.selection.cards_loaded(count);
            assert(self@ =~= after_cards_loaded_in(old(self)@, count as nat));
            r
        } else {
            self.selection.cards_loaded(count)
        }
    }

    /// Starts creating the deck named in the new-deck form: the result is
    /// the name to create it under, or `None` (and nothing changes) when the
    /// name is blank or a creation is under way.
    pub fn begin_create_deck(&mut self) -> (r: Option<String>)
        ensures
            final(self)@ == after_begin_create_deck(old(self)@),
            match r {
                Some(name) => deck_name_to_save(
                    old(self)@.panels.new_deck_name,
                    old(self)@.panels.new_deck_state == SaveState::Saving,
                ) == Some(name@),
                None => deck_name_to_save(
                    old(self)@.panels.new_deck_name,
                    old(self)@.panels.new_deck_state == SaveState::Saving,
                ) is None,
            },
    {
        let saving = matches!(self.panels.new_deck_state, SaveState::Saving);
        let r = deck_name_for_save(self.panels.new_deck_name.as_str(), saving);
        if r.is_some() {
            self.panels.new_deck_state = SaveState::Saving;
        }
        assert(self@ =~= after_begin_create_deck(old(self)@));
        r
    }

    /// Takes note that the deck creation finished, with the new deck when it
    /// succeeded (the application then clears the form and reloads the
    /// decks and the list).
    pub fn create_deck_finished(&mut self, created: Option<u64>)
        ensures
            final(self)@ == after_create_deck_finished(old(self)@, created),
    {
        match created {
            Some(deck) => {
                self.close_rename();
                self.close_dialog();
                self.selected_deck = deck;
                self.selection.selected_card_id = None;
                self.selection.last_selected = None;
                self.selection.is_create_mode = true;
                self.guard.show_deck_menu = false;
                self.guard.save_menu_state = SaveMenuState::Closed;
                self.panels.new_deck_name = String::new();
                self.panels.show_new_deck = false;
                self.panels.show_deck_actions = false;
                self.panels.delete_state = DeleteState::Idle;
                self.panels.show_delete_modal = false;
                self.panels.show_validation = false;
                self.panels.focus_prompt = false;
                self.panels.new_deck_state = SaveState::Success;
            },
            None => {
                self.panels.new_deck_state = SaveState::Error;
            },
        }
        assert(self@ =~= after_create_deck_finished(old(self)@, created));
    }

    /// Starts renaming the deck, whose name is now `label`.
    pub fn begin_rename(&mut self, label: String)
        ensures
            final(self)@ == after_begin_rename(old(self)@, label@),
    {
        self.panels.rename_deck_name = label;
        self.panels.rename_deck_state = SaveState::Idle;
        self.panels.rename_deck_error = None;
        self.guard.show_deck_menu = false;
        self.panels.show_deck_actions = false;
        self.panels.show_new_deck = false;
        self.panels.new_deck_state = SaveState::Idle;
        self.panels.is_renaming_deck = true;
        assert(self@ =~= after_begin_rename(old(self)@, label@));
    }

    /// Gives up renaming: the form closes and its name is cleared.
    pub fn cancel_rename(&mut self)
        ensures
            final(self)@ == (EditorStateView {
                panels: PanelsView { rename_deck_name: Seq::empty(), ..rename_closed(old(self)@.panels) },
                ..old(self)@
            }),
    {
        self.close_rename();
        self.panels.rename_deck_name = String::new();
        assert(self@ =~= (EditorStateView {
            panels: PanelsView { rename_deck_name: Seq::empty(), ..rename_closed(old(self)@.panels) },
            ..old(self)@
        }));
    }

    /// Starts saving the new name: the result is the name to save, or
    /// `None` when it is blank or a rename is under way (the form then says
    /// the name cannot be empty).
    pub fn begin_commit_rename(&mut self) -> (r: Option<String>)
        ensures
            final(self)@ == after_begin_commit_rename(old(self)@),
            match r {
                Some(name) => deck_name_to_save(
                    old(self)@.panels.rename_deck_name,
                    old(self)@.panels.rename_deck_state == SaveState::Saving,
                ) == Some(name@),
                None => deck_name_to_save(
                    old(self)@.panels.rename_deck_name,
                    old(self)@.panels.rename_deck_state == SaveState::Saving,
                ) is None,
            },
    {
        let saving = matches!(self.panels.rename_deck_state, SaveState::Saving);
        let r = deck_name_for_save(self.panels.rename_deck_name.as_str(), saving);
        if r.is_some() {
            self.panels.rename_deck_state = SaveState::Saving;
            self.panels.rename_deck_error = None;
        } else {
            self.panels.rename_deck_error = Some(string_from_chars(chars_of(RENAME_EMPTY_ERROR).as_slice()));
        }
        assert(self@ =~= after_begin_commit_rename(old(self)@));
        r
    }

    /// Takes note that the rename finished, successfully when `ok` (the
    /// application then reloads the decks).
    pub fn rename_finished(&mut self, ok: bool)
        ensures
            final(self)@ == after_rename_finished(old(self)@, ok),
    {
        if ok {
            self.panels.rename_deck_state = SaveState::Success;
            self.panels.is_renaming_deck = false;
        } else {
            self.panels.rename_deck_state = SaveState::Error;
            self.panels.rename_deck_error = Some(string_from_chars(chars_of(RENAME_FAILED_ERROR).as_slice()));
        }
        assert(self@ =~= after_rename_finished(old(self)@, ok));
    }

    /// The rename failure notice has run out.
    pub fn rename_error_expired(&mut self)
        ensures
            final(self)@ == after_rename_error_expired(old(self)@),
    {
        let is_failure = match &self.panels.rename_deck_error {
            Some(e) => str_equals(e.as_str(), RENAME_FAILED_ERROR),
            None => false,
        };
        if is_failure {
            self.panels.rename_deck_error = None;
        }
        assert(self@ =~= after_rename_error_expired(old(self)@));
    }

    /// Opens the dialog that asks whether to reset the deck's progress.
    pub fn open_reset_deck_modal(&mut self)
        ensures
            final(self)@ == after_open_reset_deck_modal(old(self)@),
    {
        self.close_rename();
        self.guard.show_deck_menu = false;
        self.panels.show_deck_actions = false;
        self.panels.reset_deck_state = ResetDeckState::Idle;
        self.panels.show_reset_deck_modal = true;
        assert(self@ =~= after_open_reset_deck_modal(old(self)@));
    }

    /// Closes the reset dialog, forgetting its state.
    pub fn close_reset_deck_modal(&mut self)
        ensures
            final(self)@ == (EditorStateView {
                panels: PanelsView {
                    show_reset_deck_modal: false,
                    reset_deck_state: ResetDeckState::Idle,
                    ..old(self)@.panels
                },
                ..old(self)@
            }),
    {
        self.panels.show_reset_deck_modal = false;
        self.panels.reset_deck_state = ResetDeckState::Idle;
        assert(self@ =~= (EditorStateView {
            panels: PanelsView {
                show_reset_deck_modal: false,
                reset_deck_state: ResetDeckState::Idle,
                ..old(self)@.panels
            },
            ..old(self)@
        }));
    }

    /// Starts resetting the deck's progress; the result is the deck to reset.
    pub fn begin_reset(&mut self) -> (deck: u64)
        ensures
            deck == old(self)@.selected_deck,
            final(self)@ == (EditorStateView {
                panels: PanelsView { reset_deck_state: ResetDeckState::Resetting, ..old(self)@.panels },
                ..old(self)@
            }),
    {
        self.panels.reset_deck_state = ResetDeckState::Resetting;
        assert(self@ =~= (EditorStateView {
            panels: PanelsView { reset_deck_state: ResetDeckState::Resetting, ..old(self)@.panels },
            ..old(self)@
        }));
        self.selected_deck
    }

    /// Takes note that the reset finished, successfully when `ok` (the
    /// application then reloads the list).
    pub fn reset_finished(&mut self, ok: bool)
        ensures
            final(self)@ == after_reset_finished(old(self)@, ok),
    {
        if ok {
            self.panels.reset_deck_state = ResetDeckState::Success;
            self.panels.show_reset_deck_modal = false;
        } else {
            self.panels.reset_deck_state = ResetDeckState::Error;
        }
        assert(self@ =~= after_reset_finished(old(self)@, ok));
    }
    /// A request to save, given whether there are unsaved changes and
    /// whether a side is blank (both as the application finds them in the
    /// form). The result says how it starts; when it goes ahead, the
    /// application runs the duplicate check or the write.
    pub fn request_save(&mut self, has_unsaved_changes: bool, content_blank: bool, request: SaveRequest) -> (r:
        SaveStart)
        ensures
            r == save_start_in(old(self)@, has_unsaved_changes, content_blank, request),
            final(self)@ == after_save_start(old(self)@, r),
    {
        let ghost s0 = self@;
        let saving = matches!(self.panels.save_state, SaveState::Saving);
        let checking = matches!(self.panels.duplicate_check_state, DuplicateCheckState::Checking);
        let r = begin_save(
            saving,
            checking,
            has_unsaved_changes,
            content_blank,
            self.selection.is_create_mode,
            self.selection.selected_card_id,
            request,
        );
        assert(r == save_start_in(s0, has_unsaved_changes, content_blank, request));
        self.apply_save_start(r);
        r
    }

    fn apply_save_start(&mut self, start: SaveStart)
        ensures
            final(self)@ == after_save_start(old(self)@, start),
    {
        match start {
            SaveStart::Ignore => {
                assert(self@ == after_save_start(old(self)@, start));
            },
            SaveStart::ShowValidation => {
                self.panels.show_validation = true;
                assert(self@ =~= after_save_start(old(self)@, start));
            },
            SaveStart::Proceed { check_duplicates, .. } => {
                self.start_save(check_duplicates);
                assert(self@ == after_save_start(old(self)@, start));
            },
        }
    }

    fn start_save(&mut self, check_duplicates: bool)
        ensures
            final(self)@ == (EditorStateView {
                guard: DiscardGuard { save_menu_state: SaveMenuState::Closed, ..dialog_closed(old(self)@.guard) },
                panels: if check_duplicates {
                    PanelsView { duplicate_check_state: DuplicateCheckState::Checking, ..duplicate_reset(old(self)@.panels) }
                } else {
                    PanelsView { save_state: SaveState::Saving, ..duplicate_reset(old(self)@.panels) }
                },
                ..old(self)@
            }),
    {
        self.reset_duplicate();
        self.close_dialog();
        self.guard.save_menu_state = SaveMenuState::Closed;
        if check_duplicates {
            self.panels.duplicate_check_state = DuplicateCheckState::Checking;
        } else {
            self.panels.save_state = SaveState::Saving;
        }
        assert(self@.panels =~= (if check_duplicates {
            PanelsView { duplicate_check_state: DuplicateCheckState::Checking, ..duplicate_reset(old(self)@.panels) }
        } else {
            PanelsView { save_state: SaveState::Saving, ..duplicate_reset(old(self)@.panels) }
        }));
    }

    /// Takes note of the duplicate check's answer for a save that goes on to
    /// practise when `practice`; the result says what follows.
    pub fn duplicate_check_finished(&mut self, answer: DuplicateCheck, practice: bool) -> (r:
        AfterDuplicateCheck)
        ensures
            r == (match answer {
                DuplicateCheck::Found => AfterDuplicateCheck::AskToConfirm { practice },
                DuplicateCheck::NotFound => AfterDuplicateCheck::Persist,
                DuplicateCheck::Failed => AfterDuplicateCheck::Stop,
            }),
            final(self)@ == after_duplicate_checked(old(self)@, answer, practice),
    {
        let ghost s0 = self@;
        let check_state = match answer {
            DuplicateCheck::Failed => DuplicateCheckState::Error,
            _ => DuplicateCheckState::Idle,
        };
        let found = matches!(answer, DuplicateCheck::Found);
        let persist = matches!(answer, DuplicateCheck::NotFound);
        self.panels.duplicate_check_state = check_state;
        if found {
            self.panels.show_duplicate_modal = true;
            self.panels.pending_duplicate_practice = practice;
        }
        if persist {
            self.panels.save_state = SaveState::Saving;
        }
        assert(self@.panels =~= after_duplicate_checked(s0, answer, practice).panels);
        after_duplicate_check(answer, practice)
    }

    /// Takes note that the card was written, for a save that goes on to
    /// practise when `practice`; `saved` is the card as the write gave it
    /// back, with its id. The result says what the application does next.
    pub fn save_succeeded(&mut self, practice: bool, saved: Option<(u64, C)>) -> (r: AfterSave)
        ensures
            r == after_save(old(self)@.selection.is_create_mode, practice, saved_id(saved)),
            final(self)@ == after_save_succeeded(old(self)@, practice, saved),
    {
        let ghost s0 = self@;
        let saved_card_id = match &saved {
            Some((id, _)) => Some(*id),
            None => None,
        };
        let r = after_save_success(self.selection.is_create_mode, practice, saved_card_id);
        self.guard.save_menu_state = SaveMenuState::Closed;
        self.panels.save_state = SaveState::Success;
        self.panels.delete_state = DeleteState::Idle;
        self.panels.show_delete_modal = false;
        self.panels.show_validation = false;
        self.panels.tag_input = String::new();
        if self.selection.is_create_mode {
            if !practice {
                self.selection.card_tags = Vec::new();
                self.panels.focus_prompt = true;
            }
        } else {
            match saved {
                Some((id, card)) => {
                    self.selection.card_saved(id, card);
                    self.panels.focus_prompt = true;
                },
                None => {},
            }
        }
        assert(self@ =~= after_save_succeeded(s0, practice, saved));
        r
    }

    /// Takes note that the write failed.
    pub fn save_failed(&mut self)
        ensures
            final(self)@ == (EditorStateView {
                panels: PanelsView { save_state: SaveState::Error, ..old(self)@.panels },
                ..old(self)@
            }),
    {
        self.panels.save_state = SaveState::Error;
        assert(self@ =~= (EditorStateView {
            panels: PanelsView { save_state: SaveState::Error, ..old(self)@.panels },
            ..old(self)@
        }));
    }

    /// Closes the duplicate dialog: the held-back save is dropped.
    pub fn close_duplicate_modal(&mut self)
        ensures
            final(self)@ == after_close_duplicate_modal(old(self)@),
    {
        self.reset_duplicate();
    }

    /// Saves anyway despite a card with the same prompt: the dialog closes
    /// and the result is the request to save again, skipping the check and
    /// going on to practise as the held-back save would have.
    pub fn confirm_duplicate(&mut self) -> (r: SaveRequest)
        ensures
            r == (SaveRequest { practice: old(self)@.panels.pending_duplicate_practice, skip_duplicate_check: true }),
            final(self)@ == after_close_duplicate_modal(old(self)@),
    {
        let practice = self.panels.pending_duplicate_practice;
        self.reset_duplicate();
        SaveRequest::force(practice)
    }
}

/// Starting a new card from a card that is open as loaded, and then giving
/// the new card up, opens that card again with the same tags; nothing is
/// left waiting and the unsaved-changes dialog is closed.
pub proof fn lemma_cancel_new_card_restores<C>(s: EditorStateView<C>, id: u64, card: C)
    requires
        s.selection.selected_card_id == Some(id),
        s.selection.last_selected == Some((id, card)),
        !s.selection.is_create_mode,
        s.selection.card_tags == s.selection.last_selected_tags,
    ensures
        after_cancel_new_card(after_new_card(s)).selection == s.selection,
        after_cancel_new_card(after_new_card(s)).guard.pending_action is None,
        !after_cancel_new_card(after_new_card(s)).guard.show_unsaved_modal,
{
    assert(after_cancel_new_card(after_new_card(s)).selection =~= s.selection);
}

/// Giving up a new card that is being written drops the waiting request and
/// closes the unsaved-changes dialog.
pub proof fn lemma_cancel_new_card_drops_request<C>(s: EditorStateView<C>)
    requires
        s.selection.is_create_mode,
    ensures
        after_cancel_new_card(s).guard.pending_action is None,
        !after_cancel_new_card(s).guard.show_unsaved_modal,
{
}

/// A request held back for unsaved changes is the one handed back when the
/// user discards them; either answer leaves nothing waiting and closes the
/// dialog, the menus, the writing tools and the link editor, and the two
/// answers leave the editor in the same state.
pub proof fn lemma_discard_answers<C>(s: EditorStateView<C>, action: PendingAction<C>)
    ensures
        after_request_action(s, action, true).guard.pending_action == Some(action),
        ({
            let t = after_discard_answer(after_request_action(s, action, true));
            &&& t.guard.pending_action is None
            &&& !t.guard.show_unsaved_modal
            &&& t.guard.save_menu_state == SaveMenuState::Closed
            &&& t.guard.writing_tools_menu_state == WritingToolsMenuState::Closed
            &&& t.guard.writing_tools_result_target is None
            &&& t.guard.writing_tools_request is None
            &&& t.guard.link_editor_state is None
            &&& t.selection == s.selection
            &&& t.panels == s.panels
        }),
        after_request_action(s, action, false) == s,
{
}

/// Asking to delete again while a delete is under way changes nothing, and
/// a delete that succeeded leaves nothing open, its notice going back to
/// idle when it runs out.
pub proof fn lemma_delete_steps<C>(s: EditorStateView<C>)
    ensures
        after_begin_delete(after_begin_delete(s)) == after_begin_delete(s),
        after_delete_notice(after_delete_finished(s, true)).selection == cleared::<C>(),
        after_delete_notice(after_delete_finished(s, true)).panels.delete_state == DeleteState::Idle,
        after_delete_notice(after_delete_finished(s, false)).panels.delete_state == DeleteState::Error,
{
    assert(after_begin_delete(after_begin_delete(s)) =~= after_begin_delete(s));
}

/// When a rename fails, its notice goes away once it runs out; an empty
/// name is refused with its own message, which stays.
pub proof fn lemma_rename_failure_notice<C>(s: EditorStateView<C>)
    ensures
        after_rename_error_expired(after_rename_finished(s, false)).panels.rename_deck_error is None,
        after_rename_error_expired(after_rename_finished(s, false)).panels.rename_deck_state
            == SaveState::Error,
        deck_name_to_save(s.panels.rename_deck_name, s.panels.rename_deck_state == SaveState::Saving)
            is None ==> after_rename_error_expired(after_begin_commit_rename(s)).panels.rename_deck_error
            == Some(RENAME_EMPTY_ERROR@),
{
    reveal_strlit("Name cannot be empty.");
    reveal_strlit("Rename failed. Please try again.");
    assert(RENAME_EMPTY_ERROR@ != RENAME_FAILED_ERROR@) by {
        assert(RENAME_EMPTY_ERROR@[0] != RENAME_FAILED_ERROR@[0]);
    }
}

/// When the duplicate check finds a card with the same prompt, confirming
/// the dialog asks for a save that skips the check and goes on to practise
/// as the first request would have; that save goes ahead and starts the
/// write at once.
pub proof fn lemma_confirmed_duplicate_writes<C>(s: EditorStateView<C>, practice: bool)
    requires
        s.panels.save_state != SaveState::Saving,
        s.selection.is_create_mode || s.selection.selected_card_id is Some,
    ensures
        ({
            let t = after_close_duplicate_modal(after_duplicate_checked(s, DuplicateCheck::Found, practice));
            let again = SaveRequest { practice, skip_duplicate_check: true };
            &&& save_start_in(t, true, false, again) matches SaveStart::Proceed {
                check_duplicates,
                practice: p,
                ..
            } && !check_duplicates && p == practice
            &&& after_save_start(t, save_start_in(t, true, false, again)).panels.save_state
                == SaveState::Saving
        }),
{
}

} // verus!
