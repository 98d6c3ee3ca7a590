//! The home page's lists: the latest practice sessions and the decks with
//! cards waiting, each cut to the first few, and the share of each grade in
//! a session.
use vstd::prelude::*;
use vstd::seq_lib::to_multiset_contains;
use vstd::multiset::Multiset;

use crate::numbers::{decimal, push_decimal};

verus! {

broadcast use vstd::seq_lib::group_to_multiset_ensures;

/// A value listed by a key of two parts, compared by the first part, then by
/// the second.
pub trait SortKey: Sized {
    spec fn key(&self) -> (int, int);

    fn key_parts(&self) -> (r: (i64, i64))
        ensures
            r.0 == self.key().0,
            r.1 == self.key().1,
    ;
}

/// `a` comes no later than `b` when listing the largest key first.
pub open spec fn key_at_least(a: (int, int), b: (int, int)) -> bool {
    a.0 > b.0 || (a.0 == b.0 && a.1 >= b.1)
}

/// `x` placed into `s` after every item whose key is at least its own.
pub open spec fn insert_by_key<T: SortKey>(s: Seq<T>, x: T) -> Seq<T>
    decreases s.len(),
{
    if s.len() == 0 {
        seq![x]
    } else if key_at_least(s[0].key(), x.key()) {
        seq![s[0]] + insert_by_key(s.drop_first(), x)
    } else {
        seq![x] + s
    }
}

/// `s` listed by key, largest first; items with equal keys keep their order
/// (what a stable sort gives).
pub open spec fn sort_by_key_desc<T: SortKey>(s: Seq<T>) -> Seq<T>
    decreases s.len(),
{
    if s.len() == 0 {
        Seq::empty()
    } else {
        insert_by_key(sort_by_key_desc(s.drop_last()), s.last())
    }
}

/// Every item's key is at least that of each item after it.
pub open spec fn listed_by_key<T: SortKey>(s: Seq<T>) -> bool {
    forall|i: int, j: int| 0 <= i < j < s.len() ==> key_at_least(#[trigger] s[i].key(), #[trigger] s[j].key())
}

proof fn lemma_insert_at<T: SortKey>(s: Seq<T>, x: T, p: int)
    requires
        0 <= p <= s.len(),
        forall|k: int| 0 <= k < p ==> key_at_least(#[trigger] s[k].key(), x.key()),
        p < s.len() ==> !key_at_least(s[p].key(), x.key()),
    ensures
        insert_by_key(s, x) == s.insert(p, x),
    decreases p,
{
    if p == 0 {
        if s.len() == 0 {
            assert(s.insert(0, x) =~= seq![x]);
        } else {
            assert(s.insert(0, x) =~= seq![x] + s);
        }
    } else {
        let rest = s.drop_first();
        assert forall|k: int| 0 <= k < p - 1 implies key_at_least(#[trigger] rest[k].key(), x.key()) by {
            assert(rest[k] == s[k + 1]);
        }
        lemma_insert_at(rest, x, p - 1);
        assert(key_at_least(s[0].key(), x.key()));
        assert(s.insert(p, x) =~= seq![s[0]] + rest.insert(p - 1, x));
    }
}

proof fn lemma_insert_keeps_items<T: SortKey>(s: Seq<T>, x: T)
    ensures
        insert_by_key(s, x).to_multiset() == s.to_multiset().insert(x),
        insert_by_key(s, x).len() == s.len() + 1,
    decreases s.len(),
{
    if s.len() == 0 {
        assert(seq![x] =~= Seq::<T>::empty().push(x));
        assert(Seq::<T>::empty().to_multiset() =~= Multiset::<T>::empty());
    } else if key_at_least(s[0].key(), x.key()) {
        let rest = s.drop_first();
        lemma_insert_keeps_items(rest, x);
        vstd::seq_lib::lemma_multiset_commutative(seq![s[0]], insert_by_key(rest, x));
        vstd::seq_lib::lemma_multiset_commutative(seq![s[0]], rest);
        assert(seq![s[0]] + rest =~= s);
        assert(seq![s[0]] =~= Seq::<T>::empty().push(s[0]));
        assert(Seq::<T>::empty().to_multiset() =~= Multiset::<T>::empty());
        assert(insert_by_key(s, x).to_multiset() =~= s.to_multiset().insert(x));
    } else {
        vstd::seq_lib::lemma_multiset_commutative(seq![x], s);
        assert(seq![x] =~= Seq::<T>::empty().push(x));
        assert(Seq::<T>::empty().to_multiset() =~= Multiset::<T>::empty());
        assert(insert_by_key(s, x).to_multiset() =~= s.to_multiset().insert(x));
    }
}

proof fn lemma_insert_keeps_order<T: SortKey>(s: Seq<T>, x: T)
    requires
        listed_by_key(s),
    ensures
        listed_by_key(insert_by_key(s, x)),
    decreases s.len(),
{
    if s.len() == 0 {
    } else if key_at_least(s[0].key(), x.key()) {
        let rest = s.drop_first();
        assert forall|i: int, j: int| 0 <= i < j < rest.len() implies key_at_least(
            #[trigger] rest[i].key(),
            #[trigger] rest[j].key(),
        ) by {
            assert(rest[i] == s[i + 1] && rest[j] == s[j + 1]);
        }
        lemma_insert_keeps_order(rest, x);
        lemma_insert_keeps_items(rest, x);
        let ins = insert_by_key(rest, x);
        let r = seq![s[0]] + ins;
        assert forall|j: int| 0 <= j < ins.len() implies key_at_least(
            s[0].key(),
            #[trigger] ins[j].key(),
        ) by {
            assert(ins.to_multiset().count(ins[j]) > 0);
            assert(rest.to_multiset().insert(x).count(ins[j]) > 0);
            if ins[j] != x {
                assert(rest.to_multiset().count(ins[j]) > 0);
                assert(rest.contains(ins[j]));
                let k = choose|k: int| 0 <= k < rest.len() && rest[k] == ins[j];
                assert(s[k + 1] == ins[j]);
                assert(key_at_least(s[0].key(), s[k + 1].key()));
            }
        }
        assert forall|i: int, j: int| 0 <= i < j < r.len() implies key_at_least(
            #[trigger] r[i].key(),
            #[trigger] r[j].key(),
        ) by {
            if i == 0 {
                assert(r[j] == ins[j - 1]);
            } else {
                assert(r[i] == ins[i - 1] && r[j] == ins[j - 1]);
            }
        }
    } else {
        let r = seq![x] + s;
        assert forall|i: int, j: int| 0 <= i < j < r.len() implies key_at_least(
            #[trigger] r[i].key(),
            #[trigger] r[j].key(),
        ) by {
            if i == 0 {
                assert(r[j] == s[j - 1]);
                if j - 1 > 0 {
                    assert(key_at_least(s[0].key(), s[j - 1].key()));
                }
            } else {
                assert(r[i] == s[i - 1] && r[j] == s[j - 1]);
            }
        }
    }
}

/// Listing by key keeps every item (a rearrangement of the same items) and
/// puts them in order, largest key first.
pub proof fn lemma_sort_by_key_desc<T: SortKey>(s: Seq<T>)
    ensures
        sort_by_key_desc(s).to_multiset() == s.to_multiset(),
        sort_by_key_desc(s).len() == s.len(),
        listed_by_key(sort_by_key_desc(s)),
    decreases s.len(),
{
    if s.len() == 0 {
        assert(s.to_multiset() =~= Multiset::<T>::empty());
        assert(Seq::<T>::empty().to_multiset() =~= Multiset::<T>::empty());
    } else {
        lemma_sort_by_key_desc(s.drop_last());
        lemma_insert_keeps_items(sort_by_key_desc(s.drop_last()), s.last());
        lemma_insert_keeps_order(sort_by_key_desc(s.drop_last()), s.last());
        assert(s.drop_last().push(s.last()) =~= s);
    }
}

/// The test "has key `k`".
pub open spec fn has_key<T: SortKey>(k: (int, int)) -> spec_fn(T) -> bool {
    |x: T| x.key() == k
}

proof fn lemma_insert_filter<T: SortKey>(t: Seq<T>, x: T, k: (int, int))
    requires
        listed_by_key(t),
    ensures
        insert_by_key(t, x).filter(has_key::<T>(k)) == (if x.key() == k {
            t.filter(has_key::<T>(k)).push(x)
        } else {
            t.filter(has_key::<T>(k))
        }),
    decreases t.len(),
{
    let p = has_key::<T>(k);
    if t.len() == 0 {
        assert(seq![x] =~= Seq::<T>::empty().push(x));
        Seq::<T>::empty().lemma_filter_push(x, p);
        assert(Seq::<T>::empty().filter(p) =~= Seq::<T>::empty()) by {
            reveal(Seq::filter);
        }
    } else if key_at_least(t[0].key(), x.key()) {
        let rest = t.drop_first();
        assert forall|i: int, j: int| 0 <= i < j < rest.len() implies key_at_least(
            #[trigger] rest[i].key(),
            #[trigger] rest[j].key(),
        ) by {
            assert(rest[i] == t[i + 1] && rest[j] == t[j + 1]);
        }
        lemma_insert_filter(rest, x, k);
        assert(t =~= seq![t[0]] + rest);
        Seq::filter_distributes_over_add(seq![t[0]], rest, p);
        Seq::filter_distributes_over_add(seq![t[0]], insert_by_key(rest, x), p);
        if x.key() == k {
            assert(seq![t[0]].filter(p) + rest.filter(p).push(x) =~= (seq![t[0]].filter(p)
                + rest.filter(p)).push(x));
        }
    } else {
        assert(insert_by_key(t, x) == seq![x] + t);
        Seq::filter_distributes_over_add(seq![x], t, p);
        assert(seq![x] =~= Seq::<T>::empty().push(x));
        Seq::<T>::empty().lemma_filter_push(x, p);
        assert(Seq::<T>::empty().filter(p) =~= Seq::<T>::empty()) by {
            reveal(Seq::filter);
        }
        if x.key() == k {
            // no item of `t` has the key of `x`: each ranks below the first
            assert(t.filter(p) =~= Seq::<T>::empty()) by {
                t.filter_lemma(p);
                if t.filter(p).len() > 0 {
                    let y = t.filter(p)[0];
                    assert(p(y));
                    assert(t.filter(p).contains(y));
                    t.lemma_filter_contains_rev(p, y);
                    let j = choose|j: int| 0 <= j < t.len() && t[j] == y;
                    if j > 0 {
                        assert(key_at_least(t[0].key(), t[j].key()));
                    }
                    assert(false);
                }
            }
            assert(seq![x] + Seq::<T>::empty() =~= Seq::<T>::empty().push(x));
        } else {
            assert(Seq::<T>::empty() + t.filter(p) =~= t.filter(p));
        }
    }
}

/// Listing by key keeps the order of items with equal keys: the items with
/// any one key come out in the order they went in.
pub proof fn lemma_sort_by_key_stable<T: SortKey>(s: Seq<T>, k: (int, int))
    ensures
        sort_by_key_desc(s).filter(has_key::<T>(k)) == s.filter(has_key::<T>(k)),
    decreases s.len(),
{
    let p = has_key::<T>(k);
    if s.len() == 0 {
    } else {
        lemma_sort_by_key_stable(s.drop_last(), k);
        lemma_sort_by_key_desc(s.drop_last());
        lemma_insert_filter(sort_by_key_desc(s.drop_last()), s.last(), k);
        assert(s.drop_last().push(s.last()) =~= s);
        s.drop_last().lemma_filter_push(s.last(), p);
    }
}

fn key_at_least_exec(a: (i64, i64), b: (i64, i64)) -> (r: bool)
    ensures
        r == key_at_least((a.0 as int, a.1 as int), (b.0 as int, b.1 as int)),
{
    a.0 > b.0 || (a.0 == b.0 && a.1 >= b.1)
}

/// Lists `items` by key, largest first, keeping the order of items with
/// equal keys.
pub fn sort_desc<T: SortKey>(items: Vec<T>) -> (r: Vec<T>)
    ensures
        r@ == sort_by_key_desc(items@),
{
    let ghost input = items@;
    let mut out: Vec<T> = Vec::new();
    let mut rest = items;
    assert(input.len() == rest.len());
    let mut i: usize = 0;
    while rest.len() > 0
        invariant
            i + rest.len() == input.len() <= usize::MAX,
            rest@ == input.skip(i as int),
            out@ == sort_by_key_desc(input.take(i as int)),
        decreases rest.len(),
    {
        let x = rest.remove(0);
        proof {
            assert(x == input[i as int]);
            assert(rest@ =~= input.skip(i + 1));
            assert(input.take(i + 1).drop_last() =~= input.take(i as int));
            assert(input.take(i + 1).last() == x);
        }
        let xk = x.key_parts();
        let mut p: usize = 0;
        while p < out.len() && key_at_least_exec(out[p].key_parts(), xk)
            invariant
                p <= out.len(),
                xk.0 == x.key().0 && xk.1 == x.key().1,
                forall|k: int| 0 <= k < p ==> key_at_least(#[trigger] out@[k].key(), x.key()),
            decreases out.len() - p,
        {
            p = p + 1;
        }
        proof {
            lemma_insert_at(out@, x, p as int);
        }
        out.insert(p, x);
        i = i + 1;
    }
    proof {
        assert(input.take(input.len() as int) =~= input);
    }
    out
}

/// How many items each home list shows.
pub const HOME_LIST_LIMIT: usize = 3;

/// The first `HOME_LIST_LIMIT` items of `s`, or all of them when there are
/// fewer.
pub open spec fn first_few<T>(s: Seq<T>) -> Seq<T> {
    if s.len() <= HOME_LIST_LIMIT {
        s
    } else {
        s.take(HOME_LIST_LIMIT as int)
    }
}

/// A practice session shown on the home page.
pub struct RecentSession {
    pub deck_id: u64,
    pub deck_name: String,
    /// When the session ended: whole seconds since the epoch, then the
    /// nanoseconds within that second (leap seconds reach past a billion).
    pub completed_at: (i64, u32),
    pub meta_label: String,
    pub again_pct: u32,
    pub hard_pct: u32,
    pub good_pct: u32,
    pub easy_pct: u32,
}

impl SortKey for RecentSession {
    open spec fn key(&self) -> (int, int) {
        (self.completed_at.0 as int, self.completed_at.1 as int)
    }

    fn key_parts(&self) -> (r: (i64, i64)) {
        (self.completed_at.0, self.completed_at.1 as i64)
    }
}

/// A deck with cards waiting, shown on the home page.
pub struct UpcomingDeck {
    pub deck_id: u64,
    pub deck_name: String,
    pub due: u32,
    pub new: u32,
}

impl SortKey for UpcomingDeck {
    open spec fn key(&self) -> (int, int) {
        (self.due as int, self.new as int)
    }

    fn key_parts(&self) -> (r: (i64, i64)) {
        (self.due as i64, self.new as i64)
    }
}

/// The latest sessions: newest first (sessions that ended at the same
/// moment keep their order), at most `HOME_LIST_LIMIT` of them.
pub fn latest_sessions(sessions: Vec<RecentSession>) -> (r: Vec<RecentSession>)
    ensures
        r@ == first_few(sort_by_key_desc(sessions@)),
{
    let mut sorted = sort_desc(sessions);
    sorted.truncate(HOME_LIST_LIMIT);
    sorted
}

/// Whether a deck has cards waiting: due or new.
pub open spec fn has_waiting_cards(deck: UpcomingDeck) -> bool {
    deck.due > 0 || deck.new > 0
}

/// The decks of `s` that have cards waiting, in their order.
pub open spec fn waiting_decks(s: Seq<UpcomingDeck>) -> Seq<UpcomingDeck>
    decreases s.len(),
{
    if s.len() == 0 {
        Seq::empty()
    } else if has_waiting_cards(s.last()) {
        waiting_decks(s.drop_last()).push(s.last())
    } else {
        waiting_decks(s.drop_last())
    }
}

/// The decks to practise next: those with cards waiting, most due cards
/// first, then most new cards (ties keep their order), at most
/// `HOME_LIST_LIMIT` of them.
pub fn upcoming_decks(decks: Vec<UpcomingDeck>) -> (r: Vec<UpcomingDeck>)
    ensures
        r@ == first_few(sort_by_key_desc(waiting_decks(decks@))),
{
    let ghost input = decks@;
    let mut waiting: Vec<UpcomingDeck> = Vec::new();
    let mut rest = decks;
    assert(input.len() == rest.len());
    let mut i: usize = 0;
    while rest.len() > 0
        invariant
            i + rest.len() == input.len() <= usize::MAX,
            rest@ == input.skip(i as int),
            waiting@ == waiting_decks(input.take(i as int)),
        decreases rest.len(),
    {
        let d = rest.remove(0);
        proof {
            assert(d == input[i as int]);
            assert(rest@ =~= input.skip(i + 1));
            assert(input.take(i + 1).drop_last() =~= input.take(i as int));
            assert(input.take(i + 1).last() == d);
        }
        if d.due > 0 || d.new > 0 {
            waiting.push(d);
        }
        i = i + 1;
    }
    proof {
        assert(input.take(input.len() as int) =~= input);
    }
    let mut sorted = sort_desc(waiting);
    sorted.truncate(HOME_LIST_LIMIT);
    sorted
}

/// The share of `count` in `total`, in whole percent rounded down, with
/// `count * 100` capped at the largest `u32`; zero when `total` is zero.
pub open spec fn share_percent(count: u32, total: u32) -> u32 {
    if total == 0 {
        0
    } else if count * 100 > u32::MAX {
        (u32::MAX / total) as u32
    } else {
        ((count * 100) as u32 / total) as u32
    }
}

/// The share of `count` in `total`, in whole percent.
pub fn percent_of(count: u32, total: u32) -> (r: u32)
    ensures
        r == share_percent(count, total),
{
    if total == 0 {
        return 0;
    }
    let scaled = match count.checked_mul(100) {
        Some(v) => v,
        None => u32::MAX,
    };
    scaled / total
}

pub const META_SEPARATOR: &'static str = " \u{b7} ";

pub const META_SUFFIX: &'static str = " Cards";

/// The line under a session: when it ended, then how many cards it had.
pub open spec fn session_meta_text(date_label: Seq<char>, total: u32) -> Seq<char> {
    date_label + META_SEPARATOR@ + decimal(total as nat) + META_SUFFIX@
}

/// The line under a session on the home page.
pub fn session_meta_label(date_label: &str, total: u32) -> (r: String)
    ensures
        r@ == session_meta_text(date_label@, total),
{
    let mut out = String::new();
    out.append(date_label);
    out.append(META_SEPARATOR);
    push_decimal(&mut out, total);
    out.append(META_SUFFIX);
    out
}

proof fn lemma_waiting_decks_filter(s: Seq<UpcomingDeck>)
    ensures
        waiting_decks(s) == s.filter(|d: UpcomingDeck| d.due > 0 || d.new > 0),
        forall|i: int|
            0 <= i < waiting_decks(s).len() ==> (#[trigger] waiting_decks(s)[i]).due > 0
                || waiting_decks(s)[i].new > 0,
        forall|i: int| 0 <= i < waiting_decks(s).len() ==> s.contains(#[trigger] waiting_decks(s)[i]),
        forall|j: int|
            0 <= j < s.len() && (s[j].due > 0 || s[j].new > 0) ==> waiting_decks(s).contains(#[trigger] s[j]),
    decreases s.len(),
{
    reveal(Seq::filter);
    if s.len() == 0 {
        assert(waiting_decks(s) =~= s);
    } else {
        let p = s.drop_last();
        lemma_waiting_decks_filter(p);
        assert(s.filter(|d: UpcomingDeck| d.due > 0 || d.new > 0) == (if s.last().due > 0 || s.last().new > 0 {
            p.filter(|d: UpcomingDeck| d.due > 0 || d.new > 0).push(s.last())
        } else {
            p.filter(|d: UpcomingDeck| d.due > 0 || d.new > 0)
        }));
        let w = waiting_decks(s);
        let wp = waiting_decks(p);
        assert forall|i: int| 0 <= i < w.len() implies s.contains(#[trigger] w[i]) by {
            if i < wp.len() {
                assert(w[i] == wp[i]);
                let k = choose|k: int| 0 <= k < p.len() && p[k] == wp[i];
                assert(s[k] == p[k]);
            } else {
                assert(w[i] == s.last());
                assert(s[s.len() - 1] == s.last());
            }
        }
        assert forall|i: int| 0 <= i < w.len() implies (#[trigger] w[i]).due > 0 || w[i].new > 0 by {
            if i < wp.len() {
                assert(w[i] == wp[i]);
            }
        }
        assert forall|j: int| 0 <= j < s.len() && (s[j].due > 0 || s[j].new > 0) implies w.contains(
            #[trigger] s[j],
        ) by {
            if j < p.len() {
                assert(s[j] == p[j]);
                let k = choose|k: int| 0 <= k < wp.len() && wp[k] == p[j];
                assert(w[k] == wp[k]);
            } else {
                assert(w[w.len() - 1] == s[j]);
            }
        }
    }
}

/// The upcoming decks are decks of the list that have due or new cards, at
/// most `HOME_LIST_LIMIT` of them; as many as there are such decks up to
/// that limit; and when there are no more such decks than the limit, every
/// one of them is listed.
pub proof fn lemma_upcoming_decks_are_waiting(decks: Seq<UpcomingDeck>)
    ensures
        ({
            let r = first_few(sort_by_key_desc(waiting_decks(decks)));
            let n = decks.filter(|d: UpcomingDeck| d.due > 0 || d.new > 0).len();
            &&& forall|i: int| 0 <= i < r.len() ==> (#[trigger] r[i]).due > 0 || r[i].new > 0
            &&& forall|i: int| 0 <= i < r.len() ==> decks.contains(#[trigger] r[i])
            &&& r.len() == if n <= HOME_LIST_LIMIT {
                n
            } else {
                HOME_LIST_LIMIT as nat
            }
            &&& n <= HOME_LIST_LIMIT ==> forall|j: int|
                0 <= j < decks.len() && (decks[j].due > 0 || decks[j].new > 0) ==> r.contains(
                    #[trigger] decks[j],
                )
        }),
{
    let w = waiting_decks(decks);
    let sorted = sort_by_key_desc(w);
    let r = first_few(sorted);
    lemma_waiting_decks_filter(decks);
    lemma_sort_by_key_desc(w);
    assert forall|i: int| 0 <= i < r.len() implies w.contains(#[trigger] r[i]) by {
        assert(r[i] == sorted[i]);
        to_multiset_contains(sorted, sorted[i]);
        to_multiset_contains(w, sorted[i]);
    }
    assert forall|i: int| 0 <= i < r.len() implies (#[trigger] r[i]).due > 0 || r[i].new > 0 by {
        assert(w.contains(r[i]));
        let k = choose|k: int| 0 <= k < w.len() && w[k] == r[i];
    }
    assert forall|i: int| 0 <= i < r.len() implies decks.contains(#[trigger] r[i]) by {
        assert(w.contains(r[i]));
        let k = choose|k: int| 0 <= k < w.len() && w[k] == r[i];
    }
    if w.len() <= HOME_LIST_LIMIT {
        assert forall|j: int|
            0 <= j < decks.len() && (decks[j].due > 0 || decks[j].new > 0) implies r.contains(
            #[trigger] decks[j],
        ) by {
            assert(w.contains(decks[j]));
            to_multiset_contains(w, decks[j]);
            to_multiset_contains(sorted, decks[j]);
        }
    }
}

} // verus!
