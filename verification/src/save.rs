//! The decisions of saving a card in the editor: whether a save starts,
//! what the duplicate check's answer leads to, and what follows a save.
//! The application performs each step (the check, the write) and hands the
//! outcome back.
use vstd::prelude::*;

use crate::editor::SaveRequest;

verus! {

/// How a request to save starts.
#[derive(Clone, Copy, Debug, PartialEq, Eq)]
pub enum SaveStart {
    /// Nothing happens.
    Ignore,
    /// A side is blank: the form shows what is missing.
    ShowValidation,
    /// The save goes ahead for the card `editing_id` (none for a new card).
    Proceed { editing_id: Option<u64>, check_duplicates: bool, practice: bool },
}

/// How a save request starts: nothing while a save or a duplicate check is
/// under way or when nothing changed; the validation message when a side is
/// blank; nothing when an existing card is edited but none is selected;
/// otherwise the save goes ahead (checking for a card with the same prompt
/// unless the request skips that).
pub open spec fn save_start(
    saving: bool,
    checking_duplicates: bool,
    has_unsaved_changes: bool,
    content_blank: bool,
    is_create_mode: bool,
    selected_card_id: Option<u64>,
    request: SaveRequest,
) -> SaveStart {
    if saving || checking_duplicates || !has_unsaved_changes {
        SaveStart::Ignore
    } else if content_blank {
        SaveStart::ShowValidation
    } else if !is_create_mode && selected_card_id is None {
        SaveStart::Ignore
    } else {
        SaveStart::Proceed {
            editing_id: if is_create_mode {
                None
            } else {
                selected_card_id
            },
            check_duplicates: !request.skip_duplicate_check,
            practice: request.practice,
        }
    }
}

/// How a request to save starts.
pub fn begin_save(
    saving: bool,
    checking_duplicates: bool,
    has_unsaved_changes: bool,
    content_blank: bool,
    is_create_mode: bool,
    selected_card_id: Option<u64>,
    request: SaveRequest,
) -> (r: SaveStart)
    ensures
        r == save_start(
            saving,
            checking_duplicates,
            has_unsaved_changes,
            content_blank,
            is_create_mode,
            selected_card_id,
            request,
        ),
{
    if saving || checking_duplicates || !has_unsaved_changes {
        return SaveStart::Ignore;
    }
    if content_blank {
        return SaveStart::ShowValidation;
    }
    let editing_id = if is_create_mode {
        None
    } else {
        selected_card_id
    };
    if !is_create_mode && editing_id.is_none() {
        return SaveStart::Ignore;
    }
    SaveStart::Proceed {
        editing_id,
        check_duplicates: !request.skip_duplicate_check,
        practice: request.practice,
    }
}

/// What the check for a card with the same prompt answered.
#[derive(Clone, Copy, Debug, PartialEq, Eq)]
pub enum DuplicateCheck {
    Found,
    NotFound,
    Failed,
}

/// What follows the duplicate check.
#[derive(Clone, Copy, Debug, PartialEq, Eq)]
pub enum AfterDuplicateCheck {
    /// Ask whether to save anyway; `practice` is kept for that answer.
    AskToConfirm { practice: bool },
    /// Write the card.
    Persist,
    /// The check failed: stop, showing the error.
    Stop,
}

/// What follows the duplicate check's answer for a save that goes on to
/// practise when `practice`.
pub fn after_duplicate_check(answer: DuplicateCheck, practice: bool) -> (r: AfterDuplicateCheck)
    ensures
        r == (match answer {
            DuplicateCheck::Found => AfterDuplicateCheck::AskToConfirm { practice },
            DuplicateCheck::NotFound => AfterDuplicateCheck::Persist,
            DuplicateCheck::Failed => AfterDuplicateCheck::Stop,
        }),
{
    match answer {
        DuplicateCheck::Found => AfterDuplicateCheck::AskToConfirm { practice },
        DuplicateCheck::NotFound => AfterDuplicateCheck::Persist,
        DuplicateCheck::Failed => AfterDuplicateCheck::Stop,
    }
}

/// What the editor does once a card is saved.
#[derive(Clone, Copy, Debug, PartialEq, Eq)]
pub enum AfterSave {
    /// Go to a practice session of the deck.
    PracticeDeck,
    /// Clear the form for the next new card and focus the prompt.
    ClearForNextCard,
    /// Show the saved card `card_id` as selected and focus the prompt.
    ShowSavedCard(u64),
    /// Nothing more.
    Nothing,
}

/// What the editor does once a card is saved: a new card saved to practise
/// opens a session, another new card clears the form, and an edited card
/// (when the save gave back its id) stays selected.
pub open spec fn after_save(is_create_mode: bool, practice: bool, card_id: Option<u64>) -> AfterSave {
    if is_create_mode {
        if practice {
            AfterSave::PracticeDeck
        } else {
            AfterSave::ClearForNextCard
        }
    } else {
        match card_id {
            Some(id) => AfterSave::ShowSavedCard(id),
            None => AfterSave::Nothing,
        }
    }
}

/// What the editor does once a card is saved. The rest of that step (the
/// save shown as done, the delete state, dialogs, tag field and save menu
/// reset, the selection kept) is `EditorState::save_succeeded`.
pub fn after_save_success(is_create_mode: bool, practice: bool, card_id: Option<u64>) -> (r:
    AfterSave)
    ensures
        r == after_save(is_create_mode, practice, card_id),
{
    if is_create_mode {
        if practice {
            AfterSave::PracticeDeck
        } else {
            AfterSave::ClearForNextCard
        }
    } else {
        match card_id {
            Some(id) => AfterSave::ShowSavedCard(id),
            None => AfterSave::Nothing,
        }
    }
}

/// A save that the user confirms despite a card with the same prompt skips
/// the check the second time and goes on to write the card.
pub proof fn lemma_confirmed_duplicate_saves(
    is_create_mode: bool,
    selected_card_id: Option<u64>,
    practice: bool,
)
    requires
        is_create_mode || selected_card_id is Some,
    ensures
        save_start(
            false,
            false,
            true,
            false,
            is_create_mode,
            selected_card_id,
            SaveRequest { practice, skip_duplicate_check: true },
        ) matches SaveStart::Proceed { check_duplicates, practice: p, .. } && !check_duplicates && p
            == practice,
{
}

} // verus!
