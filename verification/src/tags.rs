//! Card tags: the order-insensitive key of a tag filter, order-insensitive
//! comparison of tag lists, tag suggestions, and adding and removing tags.
use vstd::prelude::*;

use crate::order::{
    char_vecs_view, lemma_sorted_strings, lemma_sorted_unique, sort_char_vecs, sorted_strings,
};
use crate::text::{
    chars_equal, chars_of, contains_chars, contains_seq, push_char, trim, trimmed_chars,
    string_from_chars,
};

verus! {

broadcast use vstd::seq_lib::group_to_multiset_ensures;

/// The texts of a list of strings.
pub open spec fn strings_view(s: Seq<String>) -> Seq<Seq<char>> {
    s.map_values(|t: String| t@)
}

/// `parts` joined with `sep` between consecutive parts.
pub open spec fn join(parts: Seq<Seq<char>>, sep: Seq<char>) -> Seq<char>
    decreases parts.len(),
{
    if parts.len() == 0 {
        Seq::empty()
    } else if parts.len() == 1 {
        parts[0]
    } else {
        join(parts.drop_last(), sep) + sep + parts.last()
    }
}

/// The key under which a set of tag filters is remembered: the tags in
/// ascending order, joined with `|`.
pub open spec fn tag_key(tags: Seq<Seq<char>>) -> Seq<char> {
    join(sorted_strings(tags), seq!['|'])
}

/// Whether two tag lists hold the same tags, each as many times, in any
/// order.
pub open spec fn same_tags(left: Seq<Seq<char>>, right: Seq<Seq<char>>) -> bool {
    left.to_multiset() == right.to_multiset()
}

fn char_vecs_of(tags: &[String]) -> (out: Vec<Vec<char>>)
    ensures
        char_vecs_view(out@) == strings_view(tags@),
{
    let mut out: Vec<Vec<char>> = Vec::new();
    let mut i: usize = 0;
    while i < tags.len()
        invariant
            i <= tags.len(),
            char_vecs_view(out@) == strings_view(tags@).take(i as int),
        decreases tags.len() - i,
    {
        let v = chars_of(tags[i].as_str());
        let ghost before = char_vecs_view(out@);
        out.push(v);
        assert(char_vecs_view(out@) =~= before.push(v@));
        assert(strings_view(tags@).take(i + 1) =~= strings_view(tags@).take(i as int).push(
            tags@[i as int]@,
        ));
        i = i + 1;
    }
    assert(strings_view(tags@).take(tags.len() as int) =~= strings_view(tags@));
    out
}

/// The tags of `tags`, sorted.
fn sorted_tag_chars(tags: &[String]) -> (out: Vec<Vec<char>>)
    ensures
        char_vecs_view(out@) == sorted_strings(strings_view(tags@)),
{
    sort_char_vecs(char_vecs_of(tags))
}

/// The key of a tag filter: the tags sorted and joined with `|`.
pub fn tag_filter_key(tags: &[String]) -> (r: String)
    ensures
        r@ == tag_key(strings_view(tags@)),
{
    let items = sorted_tag_chars(tags);
    let ghost parts = char_vecs_view(items@);
    let mut out = String::new();
    let mut i: usize = 0;
    while i < items.len()
        invariant
            i <= items.len(),
            parts == char_vecs_view(items@),
            out@ == join(parts.take(i as int), seq!['|']),
        decreases items.len() - i,
    {
        let ghost prev = out@;
        if i > 0 {
            push_char(&mut out, '|');
        }
        let piece = &items[i];
        let mut k: usize = 0;
        let ghost mid = out@;
        while k < piece.len()
            invariant
                k <= piece.len(),
                out@ == mid + piece@.take(k as int),
            decreases piece.len() - k,
        {
            push_char(&mut out, piece[k]);
            assert(piece@.take(k + 1) =~= piece@.take(k as int).push(piece@[k as int]));
            k = k + 1;
        }
        proof {
            assert(piece@.take(piece.len() as int) =~= piece@);
            let t = parts.take(i + 1);
            assert(t.drop_last() =~= parts.take(i as int));
            assert(t.last() == piece@);
            if i == 0 {
                assert(join(parts.take(0), seq!['|']) =~= Seq::<char>::empty());
                assert(out@ =~= piece@);
            } else {
                assert(out@ =~= prev + seq!['|'] + piece@);
            }
        }
        i = i + 1;
    }
    assert(parts.take(items.len() as int) =~= parts);
    out
}

/// Whether two tag lists hold the same tags, ignoring order.
pub fn tags_equal(left: &[String], right: &[String]) -> (r: bool)
    ensures
        r == same_tags(strings_view(left@), strings_view(right@)),
{
    let a = sorted_tag_chars(left);
    let b = sorted_tag_chars(right);
    let ghost sa = char_vecs_view(a@);
    let ghost sb = char_vecs_view(b@);
    proof {
        lemma_sorted_strings(strings_view(left@));
        lemma_sorted_strings(strings_view(right@));
    }
    proof {
        if same_tags(strings_view(left@), strings_view(right@)) {
            lemma_sorted_unique(sa, sb);
        }
    }
    if a.len() != b.len() {
        assert(sa.len() != sb.len());
        return false;
    }
    let mut i: usize = 0;
    while i < a.len()
        invariant
            a.len() == b.len(),
            i <= a.len(),
            sa == char_vecs_view(a@),
            sb == char_vecs_view(b@),
            (sa == sb) == same_tags(strings_view(left@), strings_view(right@)),
            forall|k: int| 0 <= k < i ==> sa[k] == sb[k],
        decreases a.len() - i,
    {
        if !chars_equal(a[i].as_slice(), b[i].as_slice()) {
            assert(sa[i as int] != sb[i as int]);
            return false;
        }
        i = i + 1;
    }
    assert(sa =~= sb);
    true
}

/// Tags that differ only in order have the same filter key.
pub proof fn lemma_tag_key_ignores_order(left: Seq<Seq<char>>, right: Seq<Seq<char>>)
    requires
        same_tags(left, right),
    ensures
        tag_key(left) == tag_key(right),
{
    lemma_sorted_strings(left);
    lemma_sorted_strings(right);
    lemma_sorted_unique(sorted_strings(left), sorted_strings(right));
}

/// Tag lists are equal exactly when their sorted forms are: comparing tag
/// lists ignores order, and equal lists share a filter key.
pub proof fn lemma_same_tags_sorted(left: Seq<Seq<char>>, right: Seq<Seq<char>>)
    ensures
        same_tags(left, right) <==> sorted_strings(left) == sorted_strings(right),
        same_tags(left, right) ==> tag_key(left) == tag_key(right),
{
    lemma_sorted_strings(left);
    lemma_sorted_strings(right);
    if same_tags(left, right) {
        lemma_sorted_unique(sorted_strings(left), sorted_strings(right));
    }
}

/// The most suggestions offered at once.
pub const MAX_SUGGESTIONS: usize = 6;

/// Whether `tag` may be suggested: it is not on the card yet and contains
/// the search text.
pub open spec fn suggestible(tag: Seq<char>, current: Seq<Seq<char>>, needle: Seq<char>) -> bool {
    !current.contains(tag) && contains_seq(tag, needle)
}

/// The tags to suggest for the search text `query`: none for a blank query,
/// otherwise the first six deck tags (in deck order) that are not on the
/// card and contain the trimmed query.
pub open spec fn tag_suggestions(
    deck_tags: Seq<Seq<char>>,
    current: Seq<Seq<char>>,
    query: Seq<char>,
) -> Seq<Seq<char>> {
    let needle = trim(query);
    if needle.len() == 0 {
        Seq::empty()
    } else {
        let hits = deck_tags.filter(|t: Seq<char>| suggestible(t, current, needle));
        if hits.len() <= MAX_SUGGESTIONS {
            hits
        } else {
            hits.take(MAX_SUGGESTIONS as int)
        }
    }
}

/// Suggestions are few (at most six), none is already on the card, each
/// holds the trimmed search text, and each is one of the deck's tags.
pub proof fn lemma_suggestions_fit_query(
    deck_tags: Seq<Seq<char>>,
    current: Seq<Seq<char>>,
    query: Seq<char>,
)
    ensures
        tag_suggestions(deck_tags, current, query).len() <= MAX_SUGGESTIONS,
        forall|i: int|
            0 <= i < tag_suggestions(deck_tags, current, query).len() ==> {
                let t = #[trigger] tag_suggestions(deck_tags, current, query)[i];
                &&& !current.contains(t)
                &&& contains_seq(t, trim(query))
                &&& deck_tags.contains(t)
            },
{
    let needle = trim(query);
    if needle.len() > 0 {
        let pred = |t: Seq<char>| suggestible(t, current, needle);
        let hits = deck_tags.filter(pred);
        deck_tags.filter_lemma(pred);
        let r = tag_suggestions(deck_tags, current, query);
        assert forall|i: int| 0 <= i < r.len() implies {
            let t = #[trigger] r[i];
            &&& !current.contains(t)
            &&& contains_seq(t, needle)
            &&& deck_tags.contains(t)
        } by {
            assert(r[i] == hits[i]);
            assert(pred(hits[i]));
            assert(hits.contains(hits[i]));
            deck_tags.lemma_filter_contains_rev(pred, hits[i]);
        }
    }
}

fn contains_tag(items: &Vec<Vec<char>>, tag: &[char]) -> (r: bool)
    ensures
        r == char_vecs_view(items@).contains(tag@),
{
    let mut i: usize = 0;
    while i < items.len()
        invariant
            i <= items.len(),
            forall|k: int| 0 <= k < i ==> char_vecs_view(items@)[k] != tag@,
        decreases items.len() - i,
    {
        if chars_equal(items[i].as_slice(), tag) {
            assert(char_vecs_view(items@)[i as int] == tag@);
            return true;
        }
        i = i + 1;
    }
    false
}

/// Suggested tags for the search text `query`.
pub fn build_tag_suggestions(deck_tags: &[String], current: &[String], query: &str) -> (r: Vec<
    String,
>)
    ensures
        strings_view(r@) == tag_suggestions(
            strings_view(deck_tags@),
            strings_view(current@),
            query@,
        ),
{
    let needle = trimmed_chars(query);
    let mut out: Vec<String> = Vec::new();
    if needle.len() == 0 {
        assert(strings_view(out@) =~= Seq::<Seq<char>>::empty());
        return out;
    }
    let current_chars = char_vecs_of(current);
    let ghost deck = strings_view(deck_tags@);
    let ghost cur = strings_view(current@);
    let ghost pred = |t: Seq<char>| suggestible(t, cur, needle@);
    let mut i: usize = 0;
    while i < deck_tags.len() && out.len() < MAX_SUGGESTIONS
        invariant
            i <= deck_tags.len(),
            deck == strings_view(deck_tags@),
            cur == strings_view(current@),
            char_vecs_view(current_chars@) == cur,
            pred == (|t: Seq<char>| suggestible(t, cur, needle@)),
            strings_view(out@) == deck.take(i as int).filter(pred),
            out.len() <= MAX_SUGGESTIONS,
        decreases deck_tags.len() - i,
    {
        let tag = chars_of(deck_tags[i].as_str());
        let ghost before = strings_view(out@);
        let keep = !contains_tag(&current_chars, tag.as_slice()) && contains_chars(
            tag.as_slice(),
            needle.as_slice(),
        );
        proof {
            let t = deck.take(i + 1);
            assert(t.drop_last() =~= deck.take(i as int));
            assert(t.last() == deck_tags@[i as int]@);
            assert(keep == pred(t.last()));
            reveal(Seq::filter);
            assert(t.filter(pred) == (if pred(t.last()) {
                t.drop_last().filter(pred).push(t.last())
            } else {
                t.drop_last().filter(pred)
            }));
        }
        if keep {
            out.push(deck_tags[i].clone());
            assert(strings_view(out@) =~= before.push(deck_tags@[i as int]@));
        }
        i = i + 1;
    }
    proof {
        let hits = deck.filter(pred);
        if out.len() < MAX_SUGGESTIONS {
            assert(deck.take(deck_tags.len() as int) =~= deck);
        } else {
            // the first `i` deck tags already gave six hits
            assert(deck =~= deck.take(i as int) + deck.skip(i as int));
            Seq::filter_distributes_over_add(deck.take(i as int), deck.skip(i as int), pred);
            assert(hits.take(MAX_SUGGESTIONS as int) =~= deck.take(i as int).filter(pred));
        }
    }
    out
}

/// The card's tags after adding `tag`: its trimmed text is appended unless
/// it is blank or already there.
pub open spec fn tags_after_add(tags: Seq<Seq<char>>, tag: Seq<char>) -> Seq<Seq<char>> {
    let t = trim(tag);
    if t.len() == 0 || tags.contains(t) {
        tags
    } else {
        tags.push(t)
    }
}

/// The card's tags after removing `tag`: every copy of it is dropped.
pub open spec fn tags_after_remove(tags: Seq<Seq<char>>, tag: Seq<char>) -> Seq<Seq<char>> {
    tags.filter(other_than(tag))
}

/// The test "is not `tag`".
pub open spec fn other_than(tag: Seq<char>) -> spec_fn(Seq<char>) -> bool {
    |t: Seq<char>| t != tag
}

/// Adds `tag` (trimmed) to the card's tags unless it is blank or already
/// there. Returns whether the tag input should be cleared: it is kept only
/// when the tag was blank.
pub fn add_tag(tags: &mut Vec<String>, tag: &str) -> (cleared: bool)
    ensures
        cleared == (trim(tag@).len() > 0),
        strings_view(final(tags)@) == tags_after_add(strings_view(old(tags)@), tag@),
        trim(tag@).len() == 0 || strings_view(old(tags)@).contains(trim(tag@)) ==> final(tags)@
            == old(tags)@,
{
    let t = trimmed_chars(tag);
    if t.len() == 0 {
        return false;
    }
    let existing = char_vecs_of(tags.as_slice());
    if contains_tag(&existing, t.as_slice()) {
        return true;
    }
    let ghost before = strings_view(tags@);
    let s = string_from_chars(t.as_slice());
    tags.push(s);
    assert(strings_view(tags@) =~= before.push(t@));
    true
}

/// Adding a tag a second time changes nothing.
pub proof fn lemma_add_tag_idempotent(tags: Seq<Seq<char>>, tag: Seq<char>)
    ensures
        tags_after_add(tags_after_add(tags, tag), tag) == tags_after_add(tags, tag),
{
    let t = trim(tag);
    if t.len() > 0 && !tags.contains(t) {
        assert(tags.push(t)[tags.len() as int] == t);
    }
}

/// After adding a tag that is not blank, the card has it.
pub proof fn lemma_added_tag_present(tags: Seq<Seq<char>>, tag: Seq<char>)
    requires
        trim(tag).len() > 0,
    ensures
        tags_after_add(tags, tag).contains(trim(tag)),
{
    let t = trim(tag);
    if !tags.contains(t) {
        assert(tags.push(t)[tags.len() as int] == t);
    }
}

/// After removing a tag, the card no longer has it, and every other tag
/// stays.
pub proof fn lemma_removed_tag_absent(tags: Seq<Seq<char>>, tag: Seq<char>)
    ensures
        !tags_after_remove(tags, tag).contains(tag),
        forall|t: Seq<char>| t != tag ==> (tags.contains(t) <==> #[trigger] tags_after_remove(
            tags,
            tag,
        ).contains(t)),
{
    broadcast use vstd::seq_lib::group_filter_ensures;

    let pred = other_than(tag);
    let out = tags.filter(pred);
    if out.contains(tag) {
        let k = choose|k: int| 0 <= k < out.len() && out[k] == tag;
        assert(pred(out[k]));
    }
    assert forall|t: Seq<char>| t != tag implies (tags.contains(t) <==> #[trigger] out.contains(
        t,
    )) by {
        if tags.contains(t) {
            let k = choose|k: int| 0 <= k < tags.len() && tags[k] == t;
            assert(pred(tags[k]));
        }
        if out.contains(t) {
            tags.lemma_filter_contains_rev(pred, t);
        }
    }
}

proof fn lemma_filter_keeps_all(tags: Seq<Seq<char>>, tag: Seq<char>)
    requires
        !tags.contains(tag),
    ensures
        tags_after_remove(tags, tag) == tags,
    decreases tags.len(),
{
    reveal(Seq::filter);
    if tags.len() > 0 {
        assert(!tags.drop_last().contains(tag)) by {
            if tags.drop_last().contains(tag) {
                let k = choose|k: int| 0 <= k < tags.drop_last().len() && tags.drop_last()[k] == tag;
                assert(tags[k] == tag);
            }
        }
        lemma_filter_keeps_all(tags.drop_last(), tag);
        assert(tags.last() != tag) by {
            if tags.last() == tag {
                assert(tags[tags.len() - 1] == tag);
            }
        }
        assert(tags.drop_last().push(tags.last()) =~= tags);
    }
}

/// Removing a tag that was just added to a card that did not have it gives
/// back the card's tags as they were.
pub proof fn lemma_remove_undoes_add(tags: Seq<Seq<char>>, tag: Seq<char>)
    requires
        trim(tag).len() > 0,
        !tags.contains(trim(tag)),
    ensures
        tags_after_remove(tags_after_add(tags, tag), trim(tag)) == tags,
{
    reveal(Seq::filter);
    let t = trim(tag);
    let pushed = tags.push(t);
    assert(pushed.drop_last() =~= tags);
    lemma_filter_keeps_all(tags, t);
}

proof fn lemma_filter_no_duplicates(s: Seq<Seq<char>>, p: spec_fn(Seq<char>) -> bool)
    requires
        s.no_duplicates(),
    ensures
        s.filter(p).no_duplicates(),
    decreases s.len(),
{
    reveal(Seq::filter);
    if s.len() > 0 {
        let dl = s.drop_last();
        let x = s.last();
        assert(dl.no_duplicates()) by {
            assert forall|i: int, j: int|
                0 <= i < dl.len() && 0 <= j < dl.len() && i != j implies dl[i] != dl[j] by {
                assert(dl[i] == s[i] && dl[j] == s[j]);
            }
        }
        lemma_filter_no_duplicates(dl, p);
        if p(x) {
            let f = dl.filter(p);
            assert(!f.contains(x)) by {
                if f.contains(x) {
                    dl.lemma_filter_contains_rev(p, x);
                    let k = choose|k: int| 0 <= k < dl.len() && dl[k] == x;
                    assert(s[k] == s[s.len() - 1]);
                }
            }
            let g = f.push(x);
            assert forall|i: int, j: int|
                0 <= i < g.len() && 0 <= j < g.len() && i != j implies g[i] != g[j] by {
                if i < f.len() && j < f.len() {
                    assert(g[i] == f[i] && g[j] == f[j]);
                } else if i < f.len() {
                    assert(g[i] == f[i] && f.contains(f[i]));
                } else if j < f.len() {
                    assert(g[j] == f[j] && f.contains(f[j]));
                }
            }
        }
    }
}

/// Adding or removing tags never puts the same tag on a card twice.
pub proof fn lemma_tag_edits_keep_tags_distinct(tags: Seq<Seq<char>>, tag: Seq<char>)
    requires
        tags.no_duplicates(),
    ensures
        tags_after_add(tags, tag).no_duplicates(),
        tags_after_remove(tags, tag).no_duplicates(),
{
    lemma_filter_no_duplicates(tags, other_than(tag));
    let t = trim(tag);
    if t.len() > 0 && !tags.contains(t) {
        let g = tags.push(t);
        assert forall|i: int, j: int|
            0 <= i < g.len() && 0 <= j < g.len() && i != j implies g[i] != g[j] by {
            if i < tags.len() && j < tags.len() {
                assert(g[i] == tags[i] && g[j] == tags[j]);
            } else if i < tags.len() {
                assert(g[i] == tags[i] && tags.contains(tags[i]));
            } else if j < tags.len() {
                assert(g[j] == tags[j] && tags.contains(tags[j]));
            }
        }
    }
}

/// Removes every copy of `tag` from the card's tags.
pub fn remove_tag(tags: &mut Vec<String>, tag: &str)
    ensures
        strings_view(final(tags)@) == tags_after_remove(strings_view(old(tags)@), tag@),
{
    let target = chars_of(tag);
    let ghost pred = other_than(tag@);
    let ghost all = strings_view(tags@);
    let mut kept: Vec<String> = Vec::new();
    let mut i: usize = 0;
    while i < tags.len()
        invariant
            i <= tags.len(),
            all == strings_view(tags@),
            target@ == tag@,
            pred == other_than(tag@),
            strings_view(kept@) == all.take(i as int).filter(pred),
        decreases tags.len() - i,
    {
        let item = chars_of(tags[i].as_str());
        let ghost before = strings_view(kept@);
        proof {
            let t = all.take(i + 1);
            assert(t.drop_last() =~= all.take(i as int));
            assert(t.last() == tags@[i as int]@);
            assert(item@ == t.last());
            reveal(Seq::filter);
            assert(t.filter(pred) == (if pred(t.last()) {
                t.drop_last().filter(pred).push(t.last())
            } else {
                t.drop_last().filter(pred)
            }));
        }
        if !chars_equal(item.as_slice(), target.as_slice()) {
            kept.push(tags[i].clone());
            assert(strings_view(kept@) =~= before.push(tags@[i as int]@));
        }
        i = i + 1;
    }
    assert(all.take(tags.len() as int) =~= all);
    *tags = kept;
}

/// The tag filters for a choice in the filter menu: just that tag, or none.
pub fn tag_filters_for(tag: Option<String>) -> (r: Vec<String>)
    ensures
        r@ == (match tag {
            Some(t) => seq![t],
            None => Seq::empty(),
        }),
{
    let mut r: Vec<String> = Vec::new();
    match tag {
        Some(t) => {
            r.push(t);
        },
        None => {},
    }
    r
}

} // verus!
