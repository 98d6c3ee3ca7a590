//! The history page: which past sessions a search and the mistakes filter
//! leave on the list.
use vstd::prelude::*;

use crate::highlight::{lowercase_of_str, str_lowercase};
use crate::text::{
    chars_of, contains_chars, contains_seq, push_char, string_from_chars, trim, trimmed_chars,
};

verus! {

/// The search and filter of the history list, ready to test each session.
pub struct HistoryFilter {
    /// The search text, trimmed and lowercased.
    pub query: Vec<char>,
    /// Whether the deck's name holds the search text.
    pub matches_deck: bool,
    /// Whether only sessions with mistakes are listed.
    pub mistakes_only: bool,
}

/// The search text as it is looked for: trimmed, then lowercased.
pub open spec fn search_query(search: Seq<char>) -> Seq<char> {
    str_lowercase(trim(search))
}

/// Whether the deck's name (lowercased) holds the search text; never for an
/// empty search.
pub open spec fn deck_matches(search: Seq<char>, deck_label: Seq<char>) -> bool {
    search_query(search).len() > 0 && contains_seq(str_lowercase(deck_label), search_query(search))
}

/// Whether the history list shows a session: the search is empty, or it is
/// found in the deck's name or in the session's date (lowercased); and,
/// when only mistakes are listed, the session had an "again" or a "hard".
pub open spec fn history_shows(
    query: Seq<char>,
    matches_deck: bool,
    mistakes_only: bool,
    date_lowered: Seq<char>,
    again: u32,
    hard: u32,
) -> bool {
    (query.len() == 0 || matches_deck || contains_seq(date_lowered, query)) && (!mistakes_only
        || again + hard > 0)
}

impl HistoryFilter {
    /// The filter for the lowercased, trimmed search text `query` on a deck
    /// whose lowercased name is `deck_label_lowered`.
    pub fn from_lowered(query: Vec<char>, deck_label_lowered: &[char], mistakes_only: bool) -> (r:
        Self)
        ensures
            r.query@ == query@,
            r.matches_deck == (query@.len() > 0 && contains_seq(deck_label_lowered@, query@)),
            r.mistakes_only == mistakes_only,
    {
        let matches_deck = if query.len() == 0 {
            false
        } else {
            contains_chars(deck_label_lowered, query.as_slice())
        };
        HistoryFilter { query, matches_deck, mistakes_only }
    }

    /// The filter for the search text `search` on the deck called
    /// `deck_label`.
    pub fn new(search: &str, deck_label: &str, mistakes_only: bool) -> (r: Self)
        ensures
            r.query@ == search_query(search@),
            r.matches_deck == deck_matches(search@, deck_label@),
            r.mistakes_only == mistakes_only,
    {
        let trimmed = trimmed_chars(search);
        let trimmed_text = string_from_chars(trimmed.as_slice());
        let query = lowercase_of_str(trimmed_text.as_str());
        let label = lowercase_of_str(deck_label);
        HistoryFilter::from_lowered(query, label.as_slice(), mistakes_only)
    }

    /// Whether the list shows the session whose lowercased date is
    /// `date_lowered`, with `again` and `hard` grades.
    pub fn shows_lowered(&self, date_lowered: &[char], again: u32, hard: u32) -> (r: bool)
        ensures
            r == history_shows(
                self.query@,
                self.matches_deck,
                self.mistakes_only,
                date_lowered@,
                again,
                hard,
            ),
    {
        let found = self.query.len() == 0 || self.matches_deck || contains_chars(
            date_lowered,
            self.query.as_slice(),
        );
        found && (!self.mistakes_only || again > 0 || hard > 0)
    }

    /// Whether the list shows the session that ended at `completed_at_label`
    /// with `again` and `hard` grades.
    pub fn shows(&self, completed_at_label: &str, again: u32, hard: u32) -> (r: bool)
        ensures
            r == history_shows(
                self.query@,
                self.matches_deck,
                self.mistakes_only,
                str_lowercase(completed_at_label@),
                again,
                hard,
            ),
    {
        let date = lowercase_of_str(completed_at_label);
        self.shows_lowered(date.as_slice(), again, hard)
    }
}

/// The letter in a session's badge: the deck name's first character, or `D`
/// for an empty name.
pub open spec fn avatar_text(deck_label: Seq<char>) -> Seq<char> {
    if deck_label.len() == 0 {
        seq!['D']
    } else {
        seq![deck_label[0]]
    }
}

/// The letter in a session's badge.
pub fn history_avatar(deck_label: &str) -> (r: String)
    ensures
        r@ == avatar_text(deck_label@),
{
    let chars = chars_of(deck_label);
    let mut out = String::new();
    if chars.len() == 0 {
        push_char(&mut out, 'D');
    } else {
        push_char(&mut out, chars[0]);
    }
    assert(out@ =~= avatar_text(deck_label@));
    out
}


pub const HISTORY_EMPTY: &'static str = "No recent sessions yet.";

pub const HISTORY_NO_MATCH: &'static str = "No sessions match that search.";

/// What the history list says when it shows nothing: that there are no
/// sessions yet, or that none matches the search.
pub fn history_empty_message(has_sessions: bool) -> (r: &'static str)
    ensures
        r@ == (if has_sessions {
            HISTORY_NO_MATCH@
        } else {
            HISTORY_EMPTY@
        }),
{
    if has_sessions {
        HISTORY_NO_MATCH
    } else {
        HISTORY_EMPTY
    }
}

} // verus!
