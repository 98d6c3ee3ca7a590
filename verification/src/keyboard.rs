//! Keyboard navigation of the card list.
use vstd::prelude::*;

verus! {

/// The keys that move the selection in the card list; every other key is
/// `Other`.
#[derive(Clone, Copy, Debug, PartialEq, Eq)]
pub enum Key {
    ArrowDown,
    ArrowUp,
    Enter,
    Other,
}

/// The list position selected after pressing `key` in a list of `len`
/// cards with `current` selected: down moves one further (stopping at the
/// last card, starting at the first), up moves one back (stopping at the
/// first, starting at the last), Enter keeps the selection (or picks the
/// first card); nothing for an empty list or another key.
pub open spec fn next_index(current: Option<usize>, len: usize, key: Key) -> Option<usize> {
    if len == 0 {
        None
    } else {
        match key {
            Key::ArrowDown => Some(
                match current {
                    Some(idx) => if idx + 1 < len - 1 {
                        (idx + 1) as usize
                    } else {
                        (len - 1) as usize
                    },
                    None => 0,
                },
            ),
            Key::ArrowUp => Some(
                match current {
                    Some(idx) => if idx >= 1 {
                        (idx - 1) as usize
                    } else {
                        0
                    },
                    None => (len - 1) as usize,
                },
            ),
            Key::Enter => Some(
                match current {
                    Some(idx) => idx,
                    None => 0,
                },
            ),
            Key::Other => None,
        }
    }
}

/// The list position to select after `key`, if the key moves the selection.
pub fn next_list_index(current_index: Option<usize>, len: usize, key: &Key) -> (r: Option<usize>)
    requires
        *key == Key::ArrowDown ==> (current_index matches Some(idx) ==> idx < usize::MAX),
    ensures
        r == next_index(current_index, len, *key),
        current_index is None || current_index.unwrap() < len ==> r is None || r.unwrap() < len,
{
    if len == 0 {
        return None;
    }
    match key {
        Key::ArrowDown => Some(
            match current_index {
                Some(idx) => if idx + 1 < len - 1 {
                    idx + 1
                } else {
                    len - 1
                },
                None => 0,
            },
        ),
        Key::ArrowUp => Some(
            match current_index {
                Some(idx) => if idx >= 1 {
                    idx - 1
                } else {
                    0
                },
                None => len - 1,
            },
        ),
        Key::Enter => Some(
            match current_index {
                Some(idx) => idx,
                None => 0,
            },
        ),
        Key::Other => None,
    }
}

/// In a non-empty list, ArrowDown moves the selection one card further
/// (staying on the last card), ArrowUp one card back (staying on the
/// first), Enter keeps it; so Down then Up comes back to a card that is not
/// the last, and Up then Down to a card that is not the first.
pub proof fn lemma_arrow_keys_step_by_one(i: usize, len: usize)
    requires
        i < len,
    ensures
        next_index(Some(i), len, Key::ArrowDown) == Some(if i + 1 < len { (i + 1) as usize } else { i }),
        next_index(Some(i), len, Key::ArrowUp) == Some(if i > 0 { (i - 1) as usize } else { 0 }),
        next_index(Some(i), len, Key::Enter) == Some(i),
        i + 1 < len ==> next_index(next_index(Some(i), len, Key::ArrowDown), len, Key::ArrowUp) == Some(i),
        i > 0 ==> next_index(next_index(Some(i), len, Key::ArrowUp), len, Key::ArrowDown) == Some(i),
        next_index(None, len, Key::ArrowDown) == Some(0usize),
        next_index(None, len, Key::ArrowUp) == Some((len - 1) as usize),
{
}

/// With a selection past the end of a non-empty list (a list that shrank),
/// ArrowDown moves to the last card and ArrowUp one back from where it was.
pub proof fn lemma_arrow_down_from_past_the_end(i: usize, len: usize)
    requires
        0 < len <= i,
    ensures
        next_index(Some(i), len, Key::ArrowDown) == Some((len - 1) as usize),
        next_index(Some(i), len, Key::ArrowUp) == Some((i - 1) as usize),
{
}

} // verus!
