//! Splitting a card preview into the pieces that match the search text and
//! the pieces between them, for highlighting in the card list.
use vstd::prelude::*;

use crate::settings::{ascii_lower, ascii_lower_seq};
use crate::text::{
    chars_of, contains_seq, matches_at, occurs_at, string_from_chars, string_from_range, trim,
    trimmed_chars,
};

verus! {

/// The lowercase mapping of one character (one or more characters).
pub uninterp spec fn char_lowercase(c: char) -> Seq<char>;

/// The lowercase form of a whole text, as `str::to_lowercase` gives it.
pub uninterp spec fn str_lowercase(s: Seq<char>) -> Seq<char>;

/// Whether every character of `s` is ASCII.
pub open spec fn is_ascii(s: Seq<char>) -> bool {
    forall|k: int| 0 <= k < s.len() ==> (s[k] as u32) < 128
}

/// Trusted: calls `char::to_lowercase` and collects what it yields. The
/// contract names the mapping `char_lowercase` and states what its
/// documentation says of it: it yields one or more characters, and an ASCII
/// character yields its ASCII lowercase alone. The Unicode case tables for
/// the other characters are not restated.
#[verifier::external_body]
fn lowercase_of_char(c: char) -> (r: Vec<char>)
    ensures
        r@ == char_lowercase(c),
        r@.len() >= 1,
        (c as u32) < 128 ==> r@ == seq![ascii_lower(c)],
{
    c.to_lowercase().collect()
}

/// Trusted: calls `str::to_lowercase` and collects the characters of the
/// result. The contract names the result `str_lowercase` and states that an
/// all-ASCII text gives its ASCII lowercase, character by character; the
/// Unicode case tables (and the special final-sigma rule of the
/// whole-string form) are not restated.
#[verifier::external_body]
pub(crate) fn lowercase_of_str(s: &str) -> (r: Vec<char>)
    ensures
        r@ == str_lowercase(s@),
        is_ascii(s@) ==> r@ == ascii_lower_seq(s@),
{
    s.to_lowercase().chars().collect()
}

/// A piece of a preview, marked when it matches the search text.
#[derive(Clone, Debug, PartialEq, Eq)]
pub struct HighlightSpan {
    pub text: String,
    pub is_match: bool,
}

/// The text and mark of a piece.
pub open spec fn span_view(s: HighlightSpan) -> (Seq<char>, bool) {
    (s.text@, s.is_match)
}

/// The texts and marks of a list of pieces.
pub open spec fn spans_view(v: Seq<HighlightSpan>) -> Seq<(Seq<char>, bool)> {
    v.map_values(|s: HighlightSpan| span_view(s))
}

/// The lowercase forms of the characters of a text, run together.
pub open spec fn flat(groups: Seq<Seq<char>>) -> Seq<char>
    decreases groups.len(),
{
    if groups.len() == 0 {
        Seq::empty()
    } else {
        flat(groups.drop_last()) + groups.last()
    }
}

/// For each character of `flat(groups)`, the position of the text
/// character it came from.
pub open spec fn owners(groups: Seq<Seq<char>>) -> Seq<int>
    decreases groups.len(),
{
    if groups.len() == 0 {
        Seq::empty()
    } else {
        owners(groups.drop_last()) + Seq::new(groups.last().len(), |k: int| groups.len() - 1)
    }
}

/// A piece of `text` from `from` to `to`, marked or not.
pub open spec fn piece(text: Seq<char>, from: int, to: int, is_match: bool) -> Seq<(Seq<char>, bool)> {
    seq![(text.subrange(from, to), is_match)]
}

/// The pieces from the scan position `idx` of the lowered text `low` on,
/// where `cursor` is how far `text` has been split already. A match of
/// `needle` at `idx` splits off the unmatched text before it (if any) and
/// the text characters the match came from, and the scan goes on after
/// the match; otherwise it moves one character on. At the end the rest of
/// the text is one unmatched piece.
pub open spec fn scan(
    text: Seq<char>,
    low: Seq<char>,
    own: Seq<int>,
    needle: Seq<char>,
    idx: int,
    cursor: int,
) -> Seq<(Seq<char>, bool)>
    decreases low.len() - idx,
{
    if needle.len() > 0 && idx >= 0 && idx + needle.len() <= low.len() {
        if low.subrange(idx, idx + needle.len()) == needle {
            let start = own[idx];
            let end = own[idx + needle.len() - 1] + 1;
            let before = if start > cursor {
                piece(text, cursor, start, false)
            } else {
                Seq::empty()
            };
            let hit = if start < end {
                piece(text, start, end, true)
            } else {
                Seq::empty()
            };
            before + hit + scan(text, low, own, needle, idx + needle.len(), end)
        } else {
            scan(text, low, own, needle, idx + 1, cursor)
        }
    } else if cursor < text.len() {
        piece(text, cursor, text.len() as int, false)
    } else {
        Seq::empty()
    }
}

/// The pieces of `text` for the lowered characters `groups` (one group per
/// text character) and the lowered search text `needle`: the whole text as
/// one unmarked piece when `needle` is empty or nothing came out.
pub open spec fn spans_for(text: Seq<char>, groups: Seq<Seq<char>>, needle: Seq<char>) -> Seq<
    (Seq<char>, bool),
> {
    if needle.len() == 0 {
        piece(text, 0, text.len() as int, false)
    } else {
        let pieces = scan(text, flat(groups), owners(groups), needle, 0, 0);
        if pieces.len() == 0 {
            piece(text, 0, text.len() as int, false)
        } else {
            pieces
        }
    }
}

/// The pieces of the preview `text` for the search text `query`: one
/// unmarked piece with the whole text when the trimmed query is blank or
/// the text is empty; otherwise matching is done on lowercase forms.
pub open spec fn highlight(text: Seq<char>, query: Seq<char>) -> Seq<(Seq<char>, bool)> {
    let needle = trim(query);
    if needle.len() == 0 || text.len() == 0 {
        piece(text, 0, text.len() as int, false)
    } else {
        spans_for(
            text,
            Seq::new(text.len(), |k: int| char_lowercase(text[k])),
            str_lowercase(needle),
        )
    }
}

proof fn lemma_owners(groups: Seq<Seq<char>>)
    ensures
        owners(groups).len() == flat(groups).len(),
        forall|k: int|
            0 <= k < owners(groups).len() ==> 0 <= #[trigger] owners(groups)[k] < groups.len(),
        forall|i: int, j: int|
            0 <= i <= j < owners(groups).len() ==> #[trigger] owners(groups)[i] <= #[trigger] owners(
                groups,
            )[j],
    decreases groups.len(),
{
    if groups.len() > 0 {
        lemma_owners(groups.drop_last());
        let prev = owners(groups.drop_last());
        let o = owners(groups);
        assert forall|k: int| 0 <= k < o.len() implies 0 <= #[trigger] o[k] < groups.len() by {
            if k < prev.len() {
                assert(o[k] == prev[k]);
            }
        }
        assert forall|i: int, j: int| 0 <= i <= j < o.len() implies #[trigger] o[i] <= #[trigger] o[j] by {
            if j < prev.len() {
                assert(o[i] == prev[i] && o[j] == prev[j]);
            } else if i < prev.len() {
                assert(o[i] == prev[i]);
            }
        }
    }
}

fn single_span(text: &[char]) -> (r: Vec<HighlightSpan>)
    ensures
        spans_view(r@) == piece(text@, 0, text.len() as int, false),
{
    let s = string_from_range(text, 0, text.len());
    let mut r: Vec<HighlightSpan> = Vec::new();
    r.push(HighlightSpan { text: s, is_match: false });
    assert(spans_view(r@) =~= piece(text@, 0, text.len() as int, false));
    r
}

/// The pieces of `text`, given the lowercase form of each of its characters
/// and the lowercase search text.
pub fn highlight_spans_lowered(text: &[char], lowered: &Vec<Vec<char>>, needle: &[char]) -> (r: Vec<
    HighlightSpan,
>)
    requires
        lowered.len() == text.len(),
    ensures
        spans_view(r@) == spans_for(
            text@,
            Seq::new(text.len() as nat, |k: int| lowered@[k]@),
            needle@,
        ),
        text.len() > 0 ==> well_split(text@, spans_view(r@)),
{
    proof {
        if text.len() > 0 {
            lemma_spans_for_well_split(text@, Seq::new(text.len() as nat, |k: int| lowered@[k]@), needle@);
        }
    }
    let ghost groups = Seq::new(text.len() as nat, |k: int| lowered@[k]@);
    if needle.len() == 0 {
        return single_span(text);
    }
    // Run the lowercase forms together, remembering where each came from.
    let mut low: Vec<char> = Vec::new();
    let mut own: Vec<usize> = Vec::new();
    let mut g: usize = 0;
    while g < lowered.len()
        invariant
            g <= lowered.len() == text.len(),
            groups == Seq::new(text.len() as nat, |k: int| lowered@[k]@),
            low@ == flat(groups.take(g as int)),
            own@.len() == low@.len(),
            forall|k: int| 0 <= k < own@.len() ==> own@[k] as int == #[trigger] owners(groups.take(g as int))[k],
            owners(groups.take(g as int)).len() == low@.len(),
        decreases lowered.len() - g,
    {
        let group = &lowered[g];
        let ghost low0 = low@;
        let ghost own0 = own@;
        let mut k: usize = 0;
        while k < group.len()
            invariant
                k <= group.len(),
                g < text.len(),
                low@ == low0 + group@.take(k as int),
                own@ == own0 + Seq::new(k as nat, |m: int| g),
            decreases group.len() - k,
        {
            low.push(group[k]);
            own.push(g);
            assert(group@.take(k + 1) =~= group@.take(k as int).push(group@[k as int]));
            k = k + 1;
        }
        proof {
            assert(group@.take(group.len() as int) =~= group@);
            let t = groups.take(g + 1);
            assert(t.drop_last() =~= groups.take(g as int));
            assert(t.last() == group@);
            let o = owners(t);
            assert(o =~= owners(groups.take(g as int)) + Seq::new(group@.len(), |m: int| g as int));
            assert forall|m: int| 0 <= m < own@.len() implies own@[m] as int == #[trigger] o[m] by {
                if m < own0.len() {
                    assert(own@[m] == own0[m]);
                } else {
                    assert(own@[m] == g);
                }
            }
        }
        g = g + 1;
    }
    proof {
        assert(groups.take(text.len() as int) =~= groups);
        lemma_owners(groups);
    }
    let ghost gl = flat(groups);
    let ghost go = owners(groups);
    let n = needle.len();
    let mut spans: Vec<HighlightSpan> = Vec::new();
    let mut cursor: usize = 0;
    let mut idx: usize = 0;
    while idx <= low.len() && n <= low.len() - idx
        invariant
            n == needle.len() > 0,
            low@ == gl,
            own@.len() == gl.len(),
            forall|k: int| 0 <= k < own@.len() ==> own@[k] as int == #[trigger] go[k],
            forall|k: int| 0 <= k < go.len() ==> 0 <= #[trigger] go[k] < text.len(),
            forall|i: int, j: int| 0 <= i <= j < go.len() ==> #[trigger] go[i] <= #[trigger] go[j],
            go.len() == gl.len(),
            cursor <= text.len(),
            spans_view(spans@) + scan(text@, gl, go, needle@, idx as int, cursor as int) == scan(
                text@,
                gl,
                go,
                needle@,
                0,
                0,
            ),
        decreases low.len() - idx,
    {
        if matches_at(low.as_slice(), needle, idx) {
            let start = own[idx];
            let end = own[idx + n - 1] + 1;
            let ghost before_spans = spans_view(spans@);
            assert(go[idx as int] <= go[idx + n - 1]);
            if start > cursor {
                let s = string_from_range(text, cursor, start);
                spans.push(HighlightSpan { text: s, is_match: false });
            }
            if start < end {
                let s = string_from_range(text, start, end);
                spans.push(HighlightSpan { text: s, is_match: true });
            }
            proof {
                let bef = if start > cursor {
                    piece(text@, cursor as int, start as int, false)
                } else {
                    Seq::empty()
                };
                let hit = if start < end {
                    piece(text@, start as int, end as int, true)
                } else {
                    Seq::empty()
                };
                assert(spans_view(spans@) =~= before_spans + bef + hit);
                assert(scan(text@, gl, go, needle@, idx as int, cursor as int) == bef + hit + scan(
                    text@,
                    gl,
                    go,
                    needle@,
                    idx + n,
                    end as int,
                ));
                assert(before_spans + (bef + hit + scan(text@, gl, go, needle@, idx + n, end as int))
                    =~= spans_view(spans@) + scan(text@, gl, go, needle@, idx + n, end as int));
            }
            cursor = end;
            idx = idx + n;
        } else {
            idx = idx + 1;
        }
    }
    if cursor < text.len() {
        let ghost before_spans = spans_view(spans@);
        let s = string_from_range(text, cursor, text.len());
        spans.push(HighlightSpan { text: s, is_match: false });
        assert(spans_view(spans@) =~= before_spans + piece(
            text@,
            cursor as int,
            text.len() as int,
            false,
        ));
    } else {
        assert(spans_view(spans@) + Seq::<(Seq<char>, bool)>::empty() =~= spans_view(spans@));
    }
    if spans.len() == 0 {
        return single_span(text);
    }
    spans
}

/// The pieces of the preview `text` for the search text `query`, marked
/// where they match it, ignoring case. The pieces of a non-empty preview
/// each hold some text, and no two unmarked pieces stand side by side. For
/// an ASCII preview, the pieces run together give back the preview, and
/// each marked piece, made lowercase, is the lowercase trimmed search text;
/// for an ASCII search text that is not blank, no unmarked piece contains
/// it, ignoring ASCII case.
pub fn highlight_spans(text: &str, query: &str) -> (r: Vec<HighlightSpan>)
    ensures
        spans_view(r@) == highlight(text@, query@),
        text@.len() > 0 ==> well_split(text@, spans_view(r@)),
        is_ascii(text@) ==> joined_text(spans_view(r@)) == text@,
        is_ascii(text@) ==> forall|i: int|
            0 <= i < r@.len() && (#[trigger] spans_view(r@)[i]).1 ==> ascii_lower_seq(
                spans_view(r@)[i].0,
            ) == str_lowercase(trim(query@)),
        is_ascii(text@) && is_ascii(trim(query@)) ==> forall|i: int|
            0 <= i < r@.len() && (#[trigger] spans_view(r@)[i]).1 ==> ascii_lower_seq(
                spans_view(r@)[i].0,
            ) == ascii_lower_seq(trim(query@)),
        is_ascii(text@) && is_ascii(trim(query@)) && trim(query@).len() > 0 ==> forall|i: int|
            0 <= i < r@.len() && !(#[trigger] spans_view(r@)[i]).1 ==> !contains_seq(
                ascii_lower_seq(spans_view(r@)[i].0),
                ascii_lower_seq(trim(query@)),
            ),
{
    let needle = trimmed_chars(query);
    let chars = chars_of(text);
    if needle.len() == 0 || chars.len() == 0 {
        let r = single_span(chars.as_slice());
        proof {
            lemma_joined_piece(text@, 0, text@.len() as int, false);
            assert(text@.subrange(0, text@.len() as int) =~= text@);
            if text@.len() > 0 {
                lemma_highlight_well_split(text@, query@);
            }
            assert forall|i: int| 0 <= i < r@.len() implies !(#[trigger] spans_view(r@)[i]).1 by {
                assert(spans_view(r@)[i] == piece(text@, 0, text@.len() as int, false)[0]);
            }
            if text@.len() == 0 {
                assert forall|i: int| 0 <= i < r@.len() implies !contains_seq(
                    ascii_lower_seq(#[trigger] spans_view(r@)[i].0),
                    ascii_lower_seq(trim(query@)),
                ) || trim(query@).len() == 0 by {
                    assert(spans_view(r@)[i] == piece(text@, 0, 0, false)[0]);
                    assert(spans_view(r@)[i].0.len() == 0);
                }
            }
        }
        return r;
    }
    let mut lowered: Vec<Vec<char>> = Vec::new();
    let mut i: usize = 0;
    while i < chars.len()
        invariant
            i <= chars.len(),
            lowered.len() == i,
            forall|k: int| 0 <= k < i ==> #[trigger] lowered@[k]@ == char_lowercase(chars@[k]),
            forall|k: int|
                0 <= k < i && (chars@[k] as u32) < 128 ==> #[trigger] char_lowercase(chars@[k])
                    == seq![ascii_lower(chars@[k])],
        decreases chars.len() - i,
    {
        lowered.push(lowercase_of_char(chars[i]));
        i = i + 1;
    }
    let needle_text = string_from_chars(needle.as_slice());
    let needle_lower = lowercase_of_str(needle_text.as_str());
    let r = highlight_spans_lowered(chars.as_slice(), &lowered, needle_lower.as_slice());
    assert(Seq::new(chars.len() as nat, |k: int| lowered@[k]@) =~= Seq::new(
        text@.len(),
        |k: int| char_lowercase(text@[k]),
    ));
    proof {
        lemma_highlight_well_split(text@, query@);
        if is_ascii(text@) {
            assert forall|k: int| 0 <= k < text@.len() implies #[trigger] char_lowercase(text@[k])
                == seq![ascii_lower(text@[k])] by {
                assert((chars@[k] as u32) < 128);
            }
            lemma_ascii_highlight(text@, query@);
            if is_ascii(trim(query@)) && trim(query@).len() > 0 {
                lemma_ascii_unmarked_clean(text@, query@);
            }
        }
    }
    r
}

/// The texts of the pieces, run together.
pub open spec fn joined_text(spans: Seq<(Seq<char>, bool)>) -> Seq<char>
    decreases spans.len(),
{
    if spans.len() == 0 {
        Seq::empty()
    } else {
        joined_text(spans.drop_last()) + spans.last().0
    }
}

proof fn lemma_joined_text_append(a: Seq<(Seq<char>, bool)>, b: Seq<(Seq<char>, bool)>)
    ensures
        joined_text(a + b) == joined_text(a) + joined_text(b),
    decreases b.len(),
{
    if b.len() == 0 {
        assert(a + b =~= a);
        assert(joined_text(a) + joined_text(b) =~= joined_text(a));
    } else {
        lemma_joined_text_append(a, b.drop_last());
        assert((a + b).drop_last() =~= a + b.drop_last());
        assert(joined_text(a) + joined_text(b) =~= joined_text(a) + joined_text(b.drop_last())
            + b.last().0);
    }
}

proof fn lemma_joined_piece(text: Seq<char>, from: int, to: int, m: bool)
    ensures
        joined_text(piece(text, from, to, m)) == text.subrange(from, to),
{
    let p = piece(text, from, to, m);
    assert(p.drop_last() =~= Seq::<(Seq<char>, bool)>::empty());
    assert(joined_text(p.drop_last()) =~= Seq::<char>::empty());
    assert(joined_text(p) =~= text.subrange(from, to));
}

proof fn lemma_scan_covers(
    text: Seq<char>,
    low: Seq<char>,
    own: Seq<int>,
    needle: Seq<char>,
    idx: int,
    cursor: int,
)
    requires
        low.len() == text.len(),
        own.len() == low.len(),
        forall|k: int| 0 <= k < own.len() ==> #[trigger] own[k] == k,
        0 <= cursor <= idx <= low.len(),
    ensures
        joined_text(scan(text, low, own, needle, idx, cursor)) == text.subrange(
            cursor,
            text.len() as int,
        ),
    decreases low.len() - idx,
{
    let n = needle.len();
    if n > 0 && idx + n <= low.len() {
        if low.subrange(idx, idx + n) == needle {
            let start = own[idx];
            let end = own[idx + n - 1] + 1;
            assert(start == idx && end == idx + n);
            let bef = if start > cursor {
                piece(text, cursor, start, false)
            } else {
                Seq::empty()
            };
            let hit = piece(text, start, end, true);
            let rest = scan(text, low, own, needle, idx + n, end);
            lemma_scan_covers(text, low, own, needle, idx + n, end);
            lemma_joined_text_append(bef + hit, rest);
            lemma_joined_text_append(bef, hit);
            lemma_joined_piece(text, start, end, true);
            if start > cursor {
                lemma_joined_piece(text, cursor, start, false);
            } else {
                assert(joined_text(bef) =~= Seq::<char>::empty());
            }
            assert(text.subrange(cursor, start) + text.subrange(start, end) + text.subrange(
                end,
                text.len() as int,
            ) =~= text.subrange(cursor, text.len() as int));
        } else {
            lemma_scan_covers(text, low, own, needle, idx + 1, cursor);
        }
    } else if cursor < text.len() {
        lemma_joined_piece(text, cursor, text.len() as int, false);
    } else {
        assert(text.subrange(cursor, text.len() as int) =~= Seq::<char>::empty());
    }
}

proof fn lemma_single_char_groups(groups: Seq<Seq<char>>)
    requires
        forall|k: int| 0 <= k < groups.len() ==> (#[trigger] groups[k]).len() == 1,
    ensures
        flat(groups).len() == groups.len(),
        owners(groups).len() == groups.len(),
        forall|k: int| 0 <= k < groups.len() ==> #[trigger] owners(groups)[k] == k,
    decreases groups.len(),
{
    if groups.len() > 0 {
        let prev = groups.drop_last();
        assert forall|k: int| 0 <= k < prev.len() implies (#[trigger] prev[k]).len() == 1 by {
            assert(prev[k] == groups[k]);
        }
        lemma_single_char_groups(prev);
        assert(groups.last() == groups[groups.len() - 1]);
        let o = owners(groups);
        assert forall|k: int| 0 <= k < groups.len() implies #[trigger] o[k] == k by {
            if k < prev.len() {
                assert(o[k] == owners(prev)[k]);
            }
        }
    }
}

/// When every character's lowercase form is a single character, the
/// pieces run together give back the text: nothing is lost, repeated or
/// reordered.
pub proof fn lemma_spans_cover_text(text: Seq<char>, groups: Seq<Seq<char>>, needle: Seq<char>)
    requires
        groups.len() == text.len(),
        forall|k: int| 0 <= k < groups.len() ==> (#[trigger] groups[k]).len() == 1,
    ensures
        joined_text(spans_for(text, groups, needle)) == text,
{
    assert(text.subrange(0, text.len() as int) =~= text);
    if needle.len() == 0 {
        lemma_joined_piece(text, 0, text.len() as int, false);
    } else {
        lemma_single_char_groups(groups);
        lemma_owners(groups);
        lemma_scan_covers(text, flat(groups), owners(groups), needle, 0, 0);
        if scan(text, flat(groups), owners(groups), needle, 0, 0).len() == 0 {
            lemma_joined_piece(text, 0, text.len() as int, false);
        }
    }
}

/// The highlighted pieces of a preview run together give back the preview
/// (for previews whose characters each lowercase to a single character).
proof fn lemma_highlight_covers_text(text: Seq<char>, query: Seq<char>)
    requires
        forall|k: int| 0 <= k < text.len() ==> (#[trigger] char_lowercase(text[k])).len() == 1,
    ensures
        joined_text(highlight(text, query)) == text,
{
    assert(text.subrange(0, text.len() as int) =~= text);
    let needle = trim(query);
    if needle.len() == 0 || text.len() == 0 {
        lemma_joined_piece(text, 0, text.len() as int, false);
    } else {
        let groups = Seq::new(text.len(), |k: int| char_lowercase(text[k]));
        assert forall|k: int| 0 <= k < groups.len() implies (#[trigger] groups[k]).len() == 1 by {
            assert(groups[k] == char_lowercase(text[k]));
        }
        lemma_spans_cover_text(text, groups, str_lowercase(needle));
    }
}


/// The lowercase form of a text, character by character.
pub open spec fn lowered(s: Seq<char>) -> Seq<char> {
    flat(Seq::new(s.len(), |k: int| char_lowercase(s[k])))
}

proof fn lemma_flat_single(groups: Seq<Seq<char>>)
    requires
        forall|k: int| 0 <= k < groups.len() ==> (#[trigger] groups[k]).len() == 1,
    ensures
        flat(groups).len() == groups.len(),
        forall|k: int| 0 <= k < groups.len() ==> #[trigger] flat(groups)[k] == groups[k][0],
    decreases groups.len(),
{
    if groups.len() > 0 {
        let prev = groups.drop_last();
        assert forall|k: int| 0 <= k < prev.len() implies (#[trigger] prev[k]).len() == 1 by {
            assert(prev[k] == groups[k]);
        }
        lemma_flat_single(prev);
        assert(groups.last() == groups[groups.len() - 1]);
        assert forall|k: int| 0 <= k < groups.len() implies #[trigger] flat(groups)[k]
            == groups[k][0] by {
            if k < prev.len() {
                assert(flat(groups)[k] == flat(prev)[k]);
                assert(prev[k] == groups[k]);
            }
        }
    }
}

proof fn lemma_scan_marks(
    text: Seq<char>,
    low: Seq<char>,
    own: Seq<int>,
    needle: Seq<char>,
    idx: int,
    cursor: int,
)
    requires
        low.len() == text.len(),
        own.len() == low.len(),
        forall|k: int| 0 <= k < own.len() ==> #[trigger] own[k] == k,
        forall|k: int| 0 <= k < text.len() ==> (#[trigger] char_lowercase(text[k])).len() == 1,
        forall|k: int| 0 <= k < text.len() ==> #[trigger] low[k] == char_lowercase(text[k])[0],
        0 <= cursor <= idx <= low.len(),
    ensures
        forall|i: int|
            0 <= i < scan(text, low, own, needle, idx, cursor).len() && (#[trigger] scan(
                text,
                low,
                own,
                needle,
                idx,
                cursor,
            )[i]).1 ==> lowered(scan(text, low, own, needle, idx, cursor)[i].0) == needle,
    decreases low.len() - idx,
{
    let n = needle.len();
    let out = scan(text, low, own, needle, idx, cursor);
    if n > 0 && idx + n <= low.len() {
        if low.subrange(idx, idx + n) == needle {
            let start = own[idx];
            let end = own[idx + n - 1] + 1;
            assert(start == idx && end == idx + n);
            let bef = if start > cursor {
                piece(text, cursor, start, false)
            } else {
                Seq::empty()
            };
            let hit = piece(text, start, end, true);
            let rest = scan(text, low, own, needle, idx + n, end);
            lemma_scan_marks(text, low, own, needle, idx + n, end);
            let w = text.subrange(idx, idx + n);
            let g = Seq::new(w.len(), |k: int| char_lowercase(w[k]));
            assert forall|k: int| 0 <= k < g.len() implies (#[trigger] g[k]).len() == 1 by {
                assert(g[k] == char_lowercase(text[idx + k]));
            }
            lemma_flat_single(g);
            assert(lowered(w) =~= needle) by {
                assert forall|k: int| 0 <= k < n implies lowered(w)[k] == needle[k] by {
                    assert(g[k] == char_lowercase(text[idx + k]));
                    assert(low.subrange(idx, idx + n)[k] == low[idx + k]);
                }
            }
            assert(out == bef + hit + rest);
            assert forall|i: int| 0 <= i < out.len() && (#[trigger] out[i]).1 implies lowered(
                out[i].0,
            ) == needle by {
                if i < bef.len() {
                    assert(out[i] == bef[i]);
                } else if i < bef.len() + hit.len() {
                    assert(out[i] == hit[i - bef.len()]);
                } else {
                    assert(out[i] == rest[i - bef.len() - hit.len()]);
                }
            }
        } else {
            lemma_scan_marks(text, low, own, needle, idx + 1, cursor);
            assert(out == scan(text, low, own, needle, idx + 1, cursor));
        }
    } else if cursor < text.len() {
        assert(out == piece(text, cursor, text.len() as int, false));
        assert forall|i: int| 0 <= i < out.len() implies !(#[trigger] out[i]).1 by {
            assert(out[i] == piece(text, cursor, text.len() as int, false)[0]);
        }
    } else {
        assert(out.len() == 0);
    }
}

/// Every marked piece of a preview is the search text up to case: its
/// lowercase form is the lowercase search text (for previews whose
/// characters each lowercase to a single character).
proof fn lemma_highlight_marks_query(text: Seq<char>, query: Seq<char>)
    requires
        forall|k: int| 0 <= k < text.len() ==> (#[trigger] char_lowercase(text[k])).len() == 1,
    ensures
        forall|i: int|
            0 <= i < highlight(text, query).len() && (#[trigger] highlight(text, query)[i]).1
                ==> lowered(highlight(text, query)[i].0) == str_lowercase(trim(query)),
{
    let needle = trim(query);
    if needle.len() > 0 && text.len() > 0 {
        let groups = Seq::new(text.len(), |k: int| char_lowercase(text[k]));
        let ln = str_lowercase(needle);
        if ln.len() > 0 {
            assert forall|k: int| 0 <= k < groups.len() implies (#[trigger] groups[k]).len() == 1 by {
                assert(groups[k] == char_lowercase(text[k]));
            }
            lemma_single_char_groups(groups);
            lemma_flat_single(groups);
            let low = flat(groups);
            assert forall|k: int| 0 <= k < text.len() implies #[trigger] low[k] == char_lowercase(
                text[k],
            )[0] by {
                assert(groups[k] == char_lowercase(text[k]));
            }
            lemma_scan_marks(text, low, owners(groups), ln, 0, 0);
        }
    }
}

/// Whether every piece holds some text.
pub open spec fn pieces_non_empty(spans: Seq<(Seq<char>, bool)>) -> bool {
    forall|i: int| 0 <= i < spans.len() ==> (#[trigger] spans[i]).0.len() > 0
}

/// Whether no two unmarked pieces stand side by side.
pub open spec fn no_adjacent_unmarked(spans: Seq<(Seq<char>, bool)>) -> bool {
    forall|i: int, j: int|
        #![trigger spans[i], spans[j]]
        0 <= i && j == i + 1 && j < spans.len() ==> spans[i].1 || spans[j].1
}

/// Whether `w` is a stretch of `text`.
pub open spec fn within(text: Seq<char>, w: Seq<char>) -> bool {
    exists|a: int, b: int| 0 <= a <= b <= text.len() && w == #[trigger] text.subrange(a, b)
}

/// Whether every piece is a stretch of `text`.
pub open spec fn pieces_within(text: Seq<char>, spans: Seq<(Seq<char>, bool)>) -> bool {
    forall|i: int| 0 <= i < spans.len() ==> within(text, (#[trigger] spans[i]).0)
}

/// The three properties of a list of pieces of `text` together.
pub open spec fn well_split(text: Seq<char>, spans: Seq<(Seq<char>, bool)>) -> bool {
    pieces_non_empty(spans) && no_adjacent_unmarked(spans) && pieces_within(text, spans)
}

proof fn lemma_piece_well_split(text: Seq<char>, from: int, to: int, m: bool)
    requires
        0 <= from < to <= text.len(),
    ensures
        well_split(text, piece(text, from, to, m)),
{
    let p = piece(text, from, to, m);
    assert(within(text, text.subrange(from, to)));
    assert forall|i: int| 0 <= i < p.len() implies (#[trigger] p[i]).0.len() > 0 && within(text, p[i].0) by {
        assert(p[i] == (text.subrange(from, to), m));
    }
}

proof fn lemma_well_split_concat(text: Seq<char>, a: Seq<(Seq<char>, bool)>, b: Seq<(Seq<char>, bool)>)
    requires
        well_split(text, a),
        well_split(text, b),
        a.len() == 0 || b.len() == 0 || a.last().1 || b[0].1,
    ensures
        well_split(text, a + b),
{
    let c = a + b;
    assert forall|i: int| 0 <= i < c.len() implies (#[trigger] c[i]).0.len() > 0 && within(text, c[i].0) by {
        if i < a.len() {
            assert(c[i] == a[i]);
        } else {
            assert(c[i] == b[i - a.len()]);
        }
    }
    assert forall|i: int, j: int| 0 <= i && j == i + 1 && j < c.len() implies #[trigger] c[i].1
        || #[trigger] c[j].1 by {
        if j < a.len() {
            assert(c[i] == a[i] && c[j] == a[j]);
        } else if i >= a.len() {
            assert(c[i] == b[i - a.len()] && c[j] == b[j - a.len()]);
        } else {
            assert(c[i] == a[a.len() - 1] && c[j] == b[0]);
        }
    }
}

proof fn lemma_scan_well_split(
    text: Seq<char>,
    low: Seq<char>,
    own: Seq<int>,
    needle: Seq<char>,
    idx: int,
    cursor: int,
)
    requires
        own.len() == low.len(),
        forall|k: int| 0 <= k < own.len() ==> 0 <= #[trigger] own[k] < text.len(),
        forall|i: int, j: int| 0 <= i <= j < own.len() ==> #[trigger] own[i] <= #[trigger] own[j],
        0 <= cursor <= text.len(),
    ensures
        well_split(text, scan(text, low, own, needle, idx, cursor)),
    decreases low.len() - idx,
{
    let n = needle.len();
    let out = scan(text, low, own, needle, idx, cursor);
    if n > 0 && idx >= 0 && idx + n <= low.len() {
        if low.subrange(idx, idx + n) == needle {
            let start = own[idx];
            let end = own[idx + n - 1] + 1;
            assert(own[idx] <= own[idx + n - 1]);
            let bef = if start > cursor {
                piece(text, cursor, start, false)
            } else {
                Seq::empty()
            };
            let hit = piece(text, start, end, true);
            let rest = scan(text, low, own, needle, idx + n, end);
            lemma_scan_well_split(text, low, own, needle, idx + n, end);
            if start > cursor {
                lemma_piece_well_split(text, cursor, start, false);
            }
            lemma_piece_well_split(text, start, end, true);
            lemma_well_split_concat(text, bef, hit);
            assert((bef + hit).last() == hit[0]);
            lemma_well_split_concat(text, bef + hit, rest);
            assert(out == bef + hit + rest);
        } else {
            lemma_scan_well_split(text, low, own, needle, idx + 1, cursor);
        }
    } else if cursor < text.len() {
        lemma_piece_well_split(text, cursor, text.len() as int, false);
    }
}

/// For any lowercase forms (one group per character) and any search text,
/// the pieces of a non-empty text each hold some text, each is a stretch of
/// the text, and no two unmarked pieces stand side by side (the text
/// between two matches is a single piece).
pub proof fn lemma_spans_for_well_split(text: Seq<char>, groups: Seq<Seq<char>>, needle: Seq<char>)
    requires
        text.len() > 0,
        groups.len() == text.len(),
    ensures
        well_split(text, spans_for(text, groups, needle)),
{
    lemma_piece_well_split(text, 0, text.len() as int, false);
    if needle.len() > 0 {
        lemma_owners(groups);
        lemma_scan_well_split(text, flat(groups), owners(groups), needle, 0, 0);
    }
}

/// The pieces of a non-empty preview each hold some text, each is a
/// stretch of the preview, and no two unmarked pieces stand side by side.
pub proof fn lemma_highlight_well_split(text: Seq<char>, query: Seq<char>)
    requires
        text.len() > 0,
    ensures
        well_split(text, highlight(text, query)),
{
    lemma_piece_well_split(text, 0, text.len() as int, false);
    if trim(query).len() > 0 {
        lemma_spans_for_well_split(
            text,
            Seq::new(text.len(), |k: int| char_lowercase(text[k])),
            str_lowercase(trim(query)),
        );
    }
}

proof fn lemma_ascii_piece_lowered(text: Seq<char>, w: Seq<char>)
    requires
        forall|k: int| 0 <= k < text.len() ==> #[trigger] char_lowercase(text[k]) == seq![ascii_lower(text[k])],
        within(text, w),
    ensures
        lowered(w) == ascii_lower_seq(w),
{
    let (a, b) = choose|a: int, b: int| 0 <= a <= b <= text.len() && w == #[trigger] text.subrange(a, b);
    let g = Seq::new(w.len(), |k: int| char_lowercase(w[k]));
    assert forall|k: int| 0 <= k < g.len() implies #[trigger] g[k] == seq![ascii_lower(w[k])] by {
        assert(w[k] == text[a + k]);
        assert(char_lowercase(text[a + k]) == seq![ascii_lower(text[a + k])]);
    }
    assert forall|k: int| 0 <= k < g.len() implies (#[trigger] g[k]).len() == 1 by {
        assert(g[k] == seq![ascii_lower(w[k])]);
    }
    lemma_flat_single(g);
    assert forall|k: int| 0 <= k < w.len() implies #[trigger] lowered(w)[k] == ascii_lower_seq(w)[k] by {
        assert(g[k] == seq![ascii_lower(w[k])]);
        assert(flat(g)[k] == g[k][0]);
    }
    assert(lowered(w) =~= ascii_lower_seq(w));
}

/// For a preview whose characters each lowercase to their ASCII lowercase
/// (as every ASCII character does), the pieces run together give back the
/// preview, and every marked piece, made ASCII-lowercase, is the lowercase
/// trimmed search text.
proof fn lemma_ascii_highlight(text: Seq<char>, query: Seq<char>)
    requires
        forall|k: int| 0 <= k < text.len() ==> #[trigger] char_lowercase(text[k]) == seq![ascii_lower(text[k])],
    ensures
        joined_text(highlight(text, query)) == text,
        forall|i: int|
            0 <= i < highlight(text, query).len() && (#[trigger] highlight(text, query)[i]).1
                ==> ascii_lower_seq(highlight(text, query)[i].0) == str_lowercase(trim(query)),
{
    assert forall|k: int| 0 <= k < text.len() implies (#[trigger] char_lowercase(text[k])).len() == 1 by {
        assert(char_lowercase(text[k]) == seq![ascii_lower(text[k])]);
    }
    lemma_highlight_covers_text(text, query);
    lemma_highlight_marks_query(text, query);
    let h = highlight(text, query);
    if text.len() > 0 {
        lemma_highlight_well_split(text, query);
        assert forall|i: int| 0 <= i < h.len() && (#[trigger] h[i]).1 implies ascii_lower_seq(h[i].0)
            == str_lowercase(trim(query)) by {
            lemma_ascii_piece_lowered(text, h[i].0);
        }
    } else {
        assert forall|i: int| 0 <= i < h.len() implies !(#[trigger] h[i]).1 by {
            assert(h[i] == piece(text, 0, 0, false)[0]);
        }
    }
}

/// Whether `w` is a stretch `text[a..b]` inside which `needle` occurs
/// nowhere in the lowered text `low`.
pub open spec fn clean_stretch(text: Seq<char>, low: Seq<char>, needle: Seq<char>, w: Seq<char>) -> bool {
    exists|a: int, b: int|
        0 <= a <= b <= text.len() && w == #[trigger] text.subrange(a, b) && forall|p: int|
            a <= p && p + needle.len() <= b ==> !#[trigger] occurs_at(low, needle, p)
}

proof fn lemma_scan_gaps(
    text: Seq<char>,
    low: Seq<char>,
    own: Seq<int>,
    needle: Seq<char>,
    idx: int,
    cursor: int,
)
    requires
        low.len() == text.len(),
        own.len() == low.len(),
        forall|k: int| 0 <= k < own.len() ==> #[trigger] own[k] == k,
        needle.len() > 0,
        0 <= cursor <= idx <= low.len(),
        forall|p: int| cursor <= p < idx ==> !#[trigger] occurs_at(low, needle, p),
    ensures
        forall|i: int|
            0 <= i < scan(text, low, own, needle, idx, cursor).len() && !(#[trigger] scan(
                text,
                low,
                own,
                needle,
                idx,
                cursor,
            )[i]).1 ==> clean_stretch(text, low, needle, scan(text, low, own, needle, idx, cursor)[i].0),
    decreases low.len() - idx,
{
    let n = needle.len();
    let out = scan(text, low, own, needle, idx, cursor);
    if idx + n <= low.len() {
        if low.subrange(idx, idx + n) == needle {
            assert(own[idx] == idx && own[idx + n - 1] == idx + n - 1);
            let bef = if idx > cursor {
                piece(text, cursor, idx, false)
            } else {
                Seq::empty()
            };
            let hit = piece(text, idx, idx + n, true);
            let rest = scan(text, low, own, needle, idx + n, idx + n);
            lemma_scan_gaps(text, low, own, needle, idx + n, idx + n);
            assert(out == bef + hit + rest);
            if idx > cursor {
                assert(clean_stretch(text, low, needle, text.subrange(cursor, idx))) by {
                    assert forall|p: int| cursor <= p && p + n <= idx implies !#[trigger] occurs_at(
                        low,
                        needle,
                        p,
                    ) by {}
                }
            }
            assert forall|i: int| 0 <= i < out.len() && !(#[trigger] out[i]).1 implies clean_stretch(
                text,
                low,
                needle,
                out[i].0,
            ) by {
                if i < bef.len() {
                    assert(out[i] == bef[i]);
                    assert(bef[i] == (text.subrange(cursor, idx), false));
                } else if i < bef.len() + hit.len() {
                    assert(out[i] == hit[i - bef.len()]);
                } else {
                    assert(out[i] == rest[i - bef.len() - hit.len()]);
                }
            }
        } else {
            assert(!occurs_at(low, needle, idx));
            lemma_scan_gaps(text, low, own, needle, idx + 1, cursor);
            assert(out == scan(text, low, own, needle, idx + 1, cursor));
        }
    } else if cursor < text.len() {
        let len = text.len() as int;
        assert(out == piece(text, cursor, len, false));
        assert(clean_stretch(text, low, needle, text.subrange(cursor, len))) by {
            assert forall|p: int| cursor <= p && p + n <= len implies !#[trigger] occurs_at(low, needle, p) by {}
        }
        assert forall|i: int| 0 <= i < out.len() && !(#[trigger] out[i]).1 implies clean_stretch(
            text,
            low,
            needle,
            out[i].0,
        ) by {
            assert(out[i] == piece(text, cursor, len, false)[0]);
        }
    } else {
        assert(out.len() == 0);
    }
}

proof fn lemma_clean_ascii_piece(text: Seq<char>, low: Seq<char>, needle: Seq<char>, w: Seq<char>)
    requires
        low.len() == text.len(),
        forall|k: int| 0 <= k < text.len() ==> #[trigger] low[k] == ascii_lower(text[k]),
        needle.len() > 0,
        clean_stretch(text, low, needle, w),
    ensures
        !contains_seq(ascii_lower_seq(w), needle),
{
    let (a, b) = choose|a: int, b: int|
        0 <= a <= b <= text.len() && w == #[trigger] text.subrange(a, b) && forall|p: int|
            a <= p && p + needle.len() <= b ==> !#[trigger] occurs_at(low, needle, p);
    let lw = ascii_lower_seq(w);
    if contains_seq(lw, needle) {
        let at = choose|at: int| occurs_at(lw, needle, at);
        let n = needle.len();
        assert(low.subrange(a + at, a + at + n) =~= needle) by {
            assert forall|j: int| 0 <= j < n implies low.subrange(a + at, a + at + n)[j] == needle[j] by {
                assert(lw.subrange(at, at + n)[j] == needle[j]);
                assert(lw[at + j] == ascii_lower(w[at + j]));
                assert(w[at + j] == text[a + at + j]);
            }
        }
        assert(occurs_at(low, needle, a + at));
        assert(false);
    }
}

/// For a preview whose characters each lowercase to their ASCII lowercase,
/// and a non-empty lowercase search text, no unmarked piece, made
/// ASCII-lowercase, contains the search text: every occurrence is marked.
proof fn lemma_ascii_unmarked_clean(text: Seq<char>, query: Seq<char>)
    requires
        forall|k: int| 0 <= k < text.len() ==> #[trigger] char_lowercase(text[k]) == seq![ascii_lower(text[k])],
        trim(query).len() > 0,
        str_lowercase(trim(query)).len() > 0,
    ensures
        forall|i: int|
            0 <= i < highlight(text, query).len() && !(#[trigger] highlight(text, query)[i]).1
                ==> !contains_seq(ascii_lower_seq(highlight(text, query)[i].0), str_lowercase(trim(query))),
{
    let h = highlight(text, query);
    let ln = str_lowercase(trim(query));
    if text.len() == 0 {
        assert forall|i: int| 0 <= i < h.len() && !(#[trigger] h[i]).1 implies !contains_seq(
            ascii_lower_seq(h[i].0),
            ln,
        ) by {
            assert(h[i] == piece(text, 0, 0, false)[0]);
            assert(h[i].0.len() == 0);
        }
    } else {
        let groups = Seq::new(text.len(), |k: int| char_lowercase(text[k]));
        assert forall|k: int| 0 <= k < groups.len() implies (#[trigger] groups[k]).len() == 1 by {
            assert(groups[k] == char_lowercase(text[k]));
        }
        lemma_single_char_groups(groups);
        lemma_flat_single(groups);
        let low = flat(groups);
        let own = owners(groups);
        assert forall|k: int| 0 <= k < text.len() implies #[trigger] low[k] == ascii_lower(text[k]) by {
            assert(groups[k] == char_lowercase(text[k]));
        }
        lemma_scan_gaps(text, low, own, ln, 0, 0);
        lemma_scan_covers(text, low, own, ln, 0, 0);
        let sc = scan(text, low, own, ln, 0, 0);
        assert(text.subrange(0, text.len() as int) =~= text);
        if sc.len() == 0 {
            assert(joined_text(sc) == Seq::<char>::empty());
            assert(false);
        }
        assert(h == sc);
        assert forall|i: int| 0 <= i < h.len() && !(#[trigger] h[i]).1 implies !contains_seq(
            ascii_lower_seq(h[i].0),
            ln,
        ) by {
            assert(h[i] == sc[i]);
            lemma_clean_ascii_piece(text, low, ln, h[i].0);
        }
    }
}

} // verus!
