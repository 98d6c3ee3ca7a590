//! The practice page's texts.
use vstd::prelude::*;

verus! {

pub const PRACTICE_NO_DECKS: &'static str = "No decks yet. Create a deck to start practicing.";

pub const PRACTICE_NO_MATCH: &'static str = "No decks match that search.";

/// What the deck list says when it shows nothing: that there are no decks
/// yet, or that none matches the search.
pub fn practice_empty_message(has_decks: bool) -> (r: &'static str)
    ensures
        r@ == (if has_decks {
            PRACTICE_NO_MATCH@
        } else {
            PRACTICE_NO_DECKS@
        }),
{
    if has_decks {
        PRACTICE_NO_MATCH
    } else {
        PRACTICE_NO_DECKS
    }
}

pub const FOCUS_HINT_START: &'static str = "Focused on ";

pub const FOCUS_HINT_END: &'static str = ". Pick a practice option.";

/// The hint over a page opened for one deck.
pub open spec fn focus_hint_text(deck_name: Seq<char>) -> Seq<char> {
    FOCUS_HINT_START@ + deck_name + FOCUS_HINT_END@
}

/// The hint over the page when it was opened for the deck `deck_name`.
pub fn practice_focus_hint(deck_name: Option<&str>) -> (r: Option<String>)
    ensures
        match deck_name {
            Some(name) => r matches Some(h) && h@ == focus_hint_text(name@),
            None => r is None,
        },
{
    match deck_name {
        Some(name) => {
            let mut out = String::new();
            out.append(FOCUS_HINT_START);
            out.append(name);
            out.append(FOCUS_HINT_END);
            Some(out)
        },
        None => None,
    }
}

/// Where resetting a deck's learning progress from the practice page stands.
#[derive(Clone, Copy, Debug, PartialEq, Eq)]
pub enum PracticeResetState {
    Idle,
    Resetting,
    Error,
}

/// The practice page's deck menu and its reset dialog.
#[derive(Clone, Copy, Debug, PartialEq, Eq)]
pub struct PracticeDeckMenus {
    /// The deck whose action menu is open.
    pub open_menu: Option<u64>,
    /// The deck the reset dialog asks about, while it shows.
    pub reset_target: Option<u64>,
    pub reset_state: PracticeResetState,
}

impl PracticeDeckMenus {
    /// No menu or dialog open, nothing under way.
    pub fn new() -> (r: Self)
        ensures
            r == (PracticeDeckMenus {
                open_menu: None,
                reset_target: None,
                reset_state: PracticeResetState::Idle,
            }),
    {
        PracticeDeckMenus { open_menu: None, reset_target: None, reset_state: PracticeResetState::Idle }
    }

    /// The action button of `deck` is pressed: its menu closes when it was
    /// open, else it opens (closing any other).
    pub fn toggle_menu(&mut self, deck: u64)
        ensures
            *final(self) == (PracticeDeckMenus {
                open_menu: if old(self).open_menu == Some(deck) {
                    None
                } else {
                    Some(deck)
                },
                ..*old(self)
            }),
    {
        let is_open = match self.open_menu {
            Some(d) => d == deck,
            None => false,
        };
        self.open_menu = if is_open {
            None
        } else {
            Some(deck)
        };
    }

    /// Closes the action menu (a menu item was picked, or the page outside
    /// it was clicked).
    pub fn close_menu(&mut self)
        ensures
            *final(self) == (PracticeDeckMenus { open_menu: None, ..*old(self) }),
    {
        self.open_menu = None;
    }

    /// "Reset Learning Progress" is picked for `deck`: the menu closes and
    /// the dialog asks about that deck, idle.
    pub fn open_reset(&mut self, deck: u64)
        ensures
            *final(self) == (PracticeDeckMenus {
                open_menu: None,
                reset_target: Some(deck),
                reset_state: PracticeResetState::Idle,
            }),
    {
        self.open_menu = None;
        self.reset_state = PracticeResetState::Idle;
        self.reset_target = Some(deck);
    }

    /// The dialog is cancelled (or the page outside it clicked): it closes,
    /// idle.
    pub fn close_reset(&mut self)
        ensures
            *final(self) == (PracticeDeckMenus {
                reset_target: None,
                reset_state: PracticeResetState::Idle,
                ..*old(self)
            }),
    {
        self.reset_target = None;
        self.reset_state = PracticeResetState::Idle;
    }

    /// The dialog's Reset button is pressed: the result is the deck to
    /// reset, and the reset starts; `None` (and nothing changes) when no
    /// dialog shows or a reset is under way (the button is disabled then).
    pub fn begin_reset(&mut self) -> (r: Option<u64>)
        ensures
            r == (if old(self).reset_state == PracticeResetState::Resetting {
                None
            } else {
                old(self).reset_target
            }),
            *final(self) == (if r is Some {
                PracticeDeckMenus { reset_state: PracticeResetState::Resetting, ..*old(self) }
            } else {
                *old(self)
            }),
    {
        if matches!(self.reset_state, PracticeResetState::Resetting) {
            return None;
        }
        match self.reset_target {
            Some(deck) => {
                self.reset_state = PracticeResetState::Resetting;
                Some(deck)
            },
            None => None,
        }
    }

    /// The reset finished, successfully when `ok`: on success the dialog
    /// closes, idle (the application reloads the decks); on failure it stays,
    /// showing the error.
    pub fn reset_finished(&mut self, ok: bool)
        ensures
            *final(self) == (if ok {
                PracticeDeckMenus {
                    reset_target: None,
                    reset_state: PracticeResetState::Idle,
                    ..*old(self)
                }
            } else {
                PracticeDeckMenus { reset_state: PracticeResetState::Error, ..*old(self) }
            }),
    {
        if ok {
            self.reset_state = PracticeResetState::Idle;
            self.reset_target = None;
        } else {
            self.reset_state = PracticeResetState::Error;
        }
    }
}

} // verus!
