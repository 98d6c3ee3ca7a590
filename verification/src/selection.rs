//! Which card the editor has open: a card picked in the list, a new card
//! being written, or none; the card picked last (to go back to when a new
//! card is given up); and the tags on the open card.
use vstd::prelude::*;

use crate::tags::strings_view;

verus! {

/// What the editor knows of the open card. `C` is a card as listed.
pub struct CardSelection<C> {
    /// The id of the card picked in the list, if any.
    pub selected_card_id: Option<u64>,
    /// The card picked last, with its id.
    pub last_selected: Option<(u64, C)>,
    /// Whether a new card is being written.
    pub is_create_mode: bool,
    /// The tags on the open card.
    pub card_tags: Vec<String>,
    /// The tags the card picked last had when it was loaded or saved.
    pub last_selected_tags: Vec<String>,
}

/// The selection with its tags as character sequences.
#[verifier::ext_equal]
pub struct SelectionView<C> {
    pub selected_card_id: Option<u64>,
    pub last_selected: Option<(u64, C)>,
    pub is_create_mode: bool,
    pub card_tags: Seq<Seq<char>>,
    pub last_selected_tags: Seq<Seq<char>>,
}

impl<C> View for CardSelection<C> {
    type V = SelectionView<C>;

    open spec fn view(&self) -> SelectionView<C> {
        SelectionView {
            selected_card_id: self.selected_card_id,
            last_selected: self.last_selected,
            is_create_mode: self.is_create_mode,
            card_tags: strings_view(self.card_tags@),
            last_selected_tags: strings_view(self.last_selected_tags@),
        }
    }
}

/// After picking the card `id` in the list: it is open and is the card
/// picked last; its tags are loaded afresh.
pub open spec fn after_select<C>(id: u64, card: C) -> SelectionView<C> {
    SelectionView {
        selected_card_id: Some(id),
        last_selected: Some((id, card)),
        is_create_mode: false,
        card_tags: Seq::empty(),
        last_selected_tags: Seq::empty(),
    }
}

/// After starting a new card: no card is picked and the form is empty; the
/// card picked last is kept.
pub open spec fn after_start_new<C>(s: SelectionView<C>) -> SelectionView<C> {
    SelectionView {
        selected_card_id: None,
        is_create_mode: true,
        card_tags: Seq::empty(),
        ..s
    }
}

/// After changing deck, or deleting the open card: nothing is open or
/// remembered.
pub open spec fn cleared<C>() -> SelectionView<C> {
    SelectionView {
        selected_card_id: None,
        last_selected: None,
        is_create_mode: false,
        card_tags: Seq::empty(),
        last_selected_tags: Seq::empty(),
    }
}

/// After giving up a new card: back to the card picked last (with its
/// tags) when there is one, else an empty new card; unchanged when no new
/// card was being written.
pub open spec fn after_cancel_new<C>(s: SelectionView<C>) -> SelectionView<C> {
    if !s.is_create_mode {
        s
    } else {
        match s.last_selected {
            Some((id, _)) => SelectionView {
                selected_card_id: Some(id),
                is_create_mode: false,
                card_tags: s.last_selected_tags,
                ..s
            },
            None => SelectionView {
                selected_card_id: None,
                is_create_mode: true,
                card_tags: Seq::empty(),
                ..s
            },
        }
    }
}

/// What giving up a new card asks of the form.
#[derive(Clone, Copy, Debug, PartialEq, Eq)]
pub enum CancelNew {
    /// No new card was being written: nothing changes.
    NotCreating,
    /// Show the sides of the card picked last again.
    RestoreLastCard,
    /// Clear the form.
    ClearForm,
}

/// What the editor does when the card list has loaded.
#[derive(Clone, Copy, Debug, PartialEq, Eq)]
pub enum CardsLoaded {
    /// Nothing.
    Nothing,
    /// The list is empty: a new card is started (the form is cleared).
    StartNew,
    /// Nothing is open: the first card of the list is picked.
    SelectFirst,
}

/// The selection once the list has loaded with `count` cards: an empty list
/// starts a new card (forgetting the card picked last) unless one is being
/// written; otherwise unchanged (picking the first card is its own step).
pub open spec fn after_cards_loaded<C>(s: SelectionView<C>, count: nat) -> SelectionView<C> {
    if count == 0 && !s.is_create_mode {
        SelectionView {
            selected_card_id: None,
            last_selected: None,
            is_create_mode: true,
            ..s
        }
    } else {
        s
    }
}

/// What the editor does once the list has loaded with `count` cards.
pub open spec fn cards_loaded_action<C>(s: SelectionView<C>, count: nat) -> CardsLoaded {
    if count == 0 {
        if !s.is_create_mode {
            CardsLoaded::StartNew
        } else {
            CardsLoaded::Nothing
        }
    } else if s.selected_card_id is None && !s.is_create_mode {
        CardsLoaded::SelectFirst
    } else {
        CardsLoaded::Nothing
    }
}

fn copy_tags(tags: &Vec<String>) -> (r: Vec<String>)
    ensures
        strings_view(r@) == strings_view(tags@),
{
    let mut r: Vec<String> = Vec::new();
    let mut i: usize = 0;
    while i < tags.len()
        invariant
            i <= tags.len(),
            strings_view(r@) == strings_view(tags@).take(i as int),
        decreases tags.len() - i,
    {
        let ghost before = strings_view(r@);
        r.push(tags[i].clone());
        assert(strings_view(r@) =~= before.push(tags@[i as int]@));
        assert(strings_view(tags@).take(i + 1) =~= strings_view(tags@).take(i as int).push(
            tags@[i as int]@,
        ));
        i = i + 1;
    }
    assert(strings_view(tags@).take(tags.len() as int) =~= strings_view(tags@));
    r
}

impl<C> CardSelection<C> {
    /// Nothing open or remembered.
    pub fn new() -> (r: Self)
        ensures
            r@ == cleared::<C>(),
    {
        let r = CardSelection {
            selected_card_id: None,
            last_selected: None,
            is_create_mode: false,
            card_tags: Vec::new(),
            last_selected_tags: Vec::new(),
        };
        assert(r@ =~= cleared::<C>());
        r
    }

    /// Opens the card `id` picked in the list.
    pub fn select_card(&mut self, id: u64, card: C)
        ensures
            final(self)@ == after_select(id, card),
    {
        self.selected_card_id = Some(id);
        self.last_selected = Some((id, card));
        self.is_create_mode = false;
        self.card_tags = Vec::new();
        self.last_selected_tags = Vec::new();
        assert(self@ =~= after_select(id, card));
    }

    /// Starts a new card.
    pub fn start_new_card(&mut self)
        ensures
            final(self)@ == after_start_new(old(self)@),
    {
        self.selected_card_id = None;
        self.is_create_mode = true;
        self.card_tags = Vec::new();
        assert(self@ =~= after_start_new(old(self)@));
    }

    /// Forgets everything, as changing deck or deleting the open card does.
    pub fn clear(&mut self)
        ensures
            final(self)@ == cleared::<C>(),
    {
        self.selected_card_id = None;
        self.last_selected = None;
        self.is_create_mode = false;
        self.card_tags = Vec::new();
        self.last_selected_tags = Vec::new();
        assert(self@ =~= cleared::<C>());
    }

    /// Gives up the new card being written (the selection's part of that
    /// step; `EditorState::cancel_new` also drops the waiting request and
    /// closes the dialogs).
    pub fn cancel_new(&mut self) -> (r: CancelNew)
        ensures
            final(self)@ == after_cancel_new(old(self)@),
            r == (if !old(self).is_create_mode {
                CancelNew::NotCreating
            } else if old(self).last_selected is Some {
                CancelNew::RestoreLastCard
            } else {
                CancelNew::ClearForm
            }),
    {
        if !self.is_create_mode {
            return CancelNew::NotCreating;
        }
        let last_id = match &self.last_selected {
            Some((id, _)) => Some(*id),
            None => None,
        };
        match last_id {
            Some(id) => {
                self.selected_card_id = Some(id);
                self.card_tags = copy_tags(&self.last_selected_tags);
                self.is_create_mode = false;
                assert(self@ =~= after_cancel_new(old(self)@));
                CancelNew::RestoreLastCard
            },
            None => {
                self.selected_card_id = None;
                self.card_tags = Vec::new();
                self.is_create_mode = true;
                assert(self@ =~= after_cancel_new(old(self)@));
                CancelNew::ClearForm
            },
        }
    }

    /// Takes note that the list has loaded with `count` cards.
    pub fn cards_loaded(&mut self, count: usize) -> (r: CardsLoaded)
        ensures
            final(self)@ == after_cards_loaded(old(self)@, count as nat),
            r == cards_loaded_action(old(self)@, count as nat),
    {
        if count == 0 {
            if !self.is_create_mode {
                self.selected_card_id = None;
                self.last_selected = None;
                self.is_create_mode = true;
                assert(self@ =~= after_cards_loaded(old(self)@, count as nat));
                return CardsLoaded::StartNew;
            }
            return CardsLoaded::Nothing;
        }
        if self.selected_card_id.is_none() && !self.is_create_mode {
            CardsLoaded::SelectFirst
        } else {
            CardsLoaded::Nothing
        }
    }

    /// Takes note that the open card `id` was saved as `card`: it stays open
    /// and its current tags become the ones to go back to.
    pub fn card_saved(&mut self, id: u64, card: C)
        ensures
            final(self).selected_card_id == Some(id),
            final(self).last_selected == Some((id, card)),
            final(self).is_create_mode == old(self).is_create_mode,
            final(self)@.card_tags == old(self)@.card_tags,
            final(self)@.last_selected_tags == old(self)@.card_tags,
    {
        self.selected_card_id = Some(id);
        self.last_selected = Some((id, card));
        self.last_selected_tags = copy_tags(&self.card_tags);
    }
}

/// Starting a new card and then giving it up goes back to the card that was
/// open, with the tags it was loaded with.
pub proof fn lemma_cancel_new_goes_back<C>(s: SelectionView<C>, id: u64, card: C)
    requires
        s == after_select(id, card),
    ensures
        after_cancel_new(after_start_new(s)).selected_card_id == Some(id),
        !after_cancel_new(after_start_new(s)).is_create_mode,
        after_cancel_new(after_start_new(s)).card_tags == s.last_selected_tags,
        after_cancel_new(after_start_new(s)).last_selected == s.last_selected,
{
}

} // verus!
