//! Lexicographic order on character sequences (the order of `String`), its
//! laws, sorting, and the fact that a sorted arrangement of a collection is
//! unique.
use vstd::prelude::*;
use vstd::multiset::Multiset;
use vstd::relations::{sorted_by, total_ordering};

verus! {

broadcast use vstd::seq_lib::group_to_multiset_ensures;

/// `a` comes no later than `b`: at the first differing position `a` has the
/// smaller character, or `a` is a prefix of `b`.
pub open spec fn lex_le(a: Seq<char>, b: Seq<char>) -> bool
    decreases a.len(),
{
    if a.len() == 0 {
        true
    } else if b.len() == 0 {
        false
    } else if a[0] != b[0] {
        a[0] < b[0]
    } else {
        lex_le(a.drop_first(), b.drop_first())
    }
}

/// `lex_le` as a relation.
pub open spec fn lex_leq() -> spec_fn(Seq<char>, Seq<char>) -> bool {
    |a: Seq<char>, b: Seq<char>| lex_le(a, b)
}

/// The strings of `s` in ascending lexicographic order.
pub open spec fn sorted_strings(s: Seq<Seq<char>>) -> Seq<Seq<char>> {
    s.sort_by(lex_leq())
}

proof fn lemma_lex_le_reflexive(a: Seq<char>)
    ensures
        lex_le(a, a),
    decreases a.len(),
{
    if a.len() > 0 {
        lemma_lex_le_reflexive(a.drop_first());
    }
}

proof fn lemma_lex_le_antisymmetric(a: Seq<char>, b: Seq<char>)
    requires
        lex_le(a, b),
        lex_le(b, a),
    ensures
        a == b,
    decreases a.len(),
{
    if a.len() > 0 && b.len() > 0 {
        lemma_lex_le_antisymmetric(a.drop_first(), b.drop_first());
        assert(a =~= seq![a[0]] + a.drop_first());
        assert(b =~= seq![b[0]] + b.drop_first());
    } else {
        assert(a =~= b);
    }
}

proof fn lemma_lex_le_transitive(a: Seq<char>, b: Seq<char>, c: Seq<char>)
    requires
        lex_le(a, b),
        lex_le(b, c),
    ensures
        lex_le(a, c),
    decreases a.len(),
{
    if a.len() > 0 && b.len() > 0 && c.len() > 0 {
        if a[0] == b[0] && b[0] == c[0] {
            lemma_lex_le_transitive(a.drop_first(), b.drop_first(), c.drop_first());
        }
    }
}

proof fn lemma_lex_le_total(a: Seq<char>, b: Seq<char>)
    ensures
        lex_le(a, b) || lex_le(b, a),
    decreases a.len(),
{
    if a.len() > 0 && b.len() > 0 && a[0] == b[0] {
        lemma_lex_le_total(a.drop_first(), b.drop_first());
    }
}

/// Lexicographic order is a total order.
pub proof fn lemma_lex_total_ordering()
    ensures
        total_ordering(lex_leq()),
{
    assert forall|x: Seq<char>| #[trigger] lex_leq()(x, x) by {
        lemma_lex_le_reflexive(x);
    }
    assert forall|x: Seq<char>, y: Seq<char>| #[trigger]
        lex_leq()(x, y) && #[trigger] lex_leq()(y, x) implies x == y by {
        lemma_lex_le_antisymmetric(x, y);
    }
    assert forall|x: Seq<char>, y: Seq<char>, z: Seq<char>| #[trigger]
        lex_leq()(x, y) && #[trigger] lex_leq()(y, z) implies lex_leq()(x, z) by {
        lemma_lex_le_transitive(x, y, z);
    }
    assert forall|x: Seq<char>, y: Seq<char>| #[trigger]
        lex_leq()(x, y) || #[trigger] lex_leq()(y, x) by {
        lemma_lex_le_total(x, y);
    }
}

/// `sorted_strings(s)` is in order and holds the strings of `s`.
pub proof fn lemma_sorted_strings(s: Seq<Seq<char>>)
    ensures
        sorted_by(sorted_strings(s), lex_leq()),
        sorted_strings(s).to_multiset() == s.to_multiset(),
{
    lemma_lex_total_ordering();
    s.lemma_sort_by_ensures(lex_leq());
}

/// Two sorted sequences that hold the same strings are equal.
pub proof fn lemma_sorted_unique(a: Seq<Seq<char>>, b: Seq<Seq<char>>)
    requires
        sorted_by(a, lex_leq()),
        sorted_by(b, lex_leq()),
        a.to_multiset() == b.to_multiset(),
    ensures
        a == b,
    decreases a.len(),
{
    assert(a.len() == a.to_multiset().len());
    assert(b.len() == b.to_multiset().len());
    if a.len() == 0 {
        assert(a =~= b);
    } else {
        let x = a[0];
        let y = b[0];
        assert(a.to_multiset().count(x) > 0) by {
            assert(a.contains(x));
        }
        assert(b.contains(x));
        let j = choose|j: int| 0 <= j < b.len() && b[j] == x;
        if j > 0 {
            assert(lex_leq()(b[0], b[j]));
        } else {
            lemma_lex_le_reflexive(x);
        }
        assert(b.to_multiset().count(y) > 0) by {
            assert(b.contains(y));
        }
        assert(a.contains(y));
        let i = choose|i: int| 0 <= i < a.len() && a[i] == y;
        if i > 0 {
            assert(lex_leq()(a[0], a[i]));
        } else {
            lemma_lex_le_reflexive(y);
        }
        lemma_lex_le_antisymmetric(x, y);
        let ta = a.remove(0);
        let tb = b.remove(0);
        assert(ta.to_multiset() == a.to_multiset().remove(x));
        assert(tb.to_multiset() == b.to_multiset().remove(y));
        assert(ta =~= a.drop_first());
        assert(tb =~= b.drop_first());
        assert(sorted_by(ta, lex_leq())) by {
            assert forall|p: int, q: int| 0 <= p < q < ta.len() implies #[trigger] lex_leq()(
                ta[p],
                ta[q],
            ) by {
                assert(ta[p] == a[p + 1] && ta[q] == a[q + 1]);
            }
        }
        assert(sorted_by(tb, lex_leq())) by {
            assert forall|p: int, q: int| 0 <= p < q < tb.len() implies #[trigger] lex_leq()(
                tb[p],
                tb[q],
            ) by {
                assert(tb[p] == b[p + 1] && tb[q] == b[q + 1]);
            }
        }
        lemma_sorted_unique(ta, tb);
        assert(a =~= seq![x] + ta);
        assert(b =~= seq![y] + tb);
    }
}

/// Whether `a` comes no later than `b` in lexicographic order.
pub fn lex_le_chars(a: &[char], b: &[char]) -> (r: bool)
    ensures
        r == lex_le(a@, b@),
{
    let mut k: usize = 0;
    assert(a@.skip(0) =~= a@);
    assert(b@.skip(0) =~= b@);
    while k < a.len() && k < b.len() && a[k] == b[k]
        invariant
            k <= a.len(),
            k <= b.len(),
            forall|m: int| 0 <= m < k ==> a@[m] == b@[m],
            lex_le(a@, b@) == lex_le(a@.skip(k as int), b@.skip(k as int)),
        decreases a.len() - k,
    {
        assert(a@.skip(k as int).drop_first() =~= a@.skip(k + 1));
        assert(b@.skip(k as int).drop_first() =~= b@.skip(k + 1));
        k = k + 1;
    }
    if k == a.len() {
        true
    } else if k == b.len() {
        false
    } else {
        a[k] < b[k]
    }
}

/// The views of a sequence of character vectors.
pub open spec fn char_vecs_view(v: Seq<Vec<char>>) -> Seq<Seq<char>> {
    v.map_values(|c: Vec<char>| c@)
}

/// Sorts character vectors into ascending lexicographic order.
pub fn sort_char_vecs(items: Vec<Vec<char>>) -> (out: Vec<Vec<char>>)
    ensures
        char_vecs_view(out@) == sorted_strings(char_vecs_view(items@)),
{
    let ghost input = char_vecs_view(items@);
    let mut out: Vec<Vec<char>> = Vec::new();
    let mut rest = items;
    proof {
        lemma_lex_total_ordering();
        assert(char_vecs_view(out@) =~= Seq::<Seq<char>>::empty());
        assert(char_vecs_view(out@).to_multiset() =~= Multiset::<Seq<char>>::empty());
    }
    while rest.len() > 0
        invariant
            total_ordering(lex_leq()),
            sorted_by(char_vecs_view(out@), lex_leq()),
            char_vecs_view(out@).to_multiset().add(char_vecs_view(rest@).to_multiset())
                == input.to_multiset(),
        decreases rest.len(),
    {
        let ghost before_rest = rest@;
        let x = rest.pop().unwrap();
        proof {
            assert(char_vecs_view(before_rest) =~= char_vecs_view(rest@).push(x@));
        }
        let mut p: usize = 0;
        while p < out.len() && lex_le_chars(out[p].as_slice(), x.as_slice())
            invariant
                p <= out.len(),
                forall|k: int| 0 <= k < p ==> lex_le(#[trigger] char_vecs_view(out@)[k], x@),
            decreases out.len() - p,
        {
            p = p + 1;
        }
        let ghost before = char_vecs_view(out@);
        proof {
            if p < out.len() {
                lemma_lex_le_total(before[p as int], x@);
                assert forall|k: int| p <= k < before.len() implies lex_le(x@, #[trigger] before[k]) by {
                    if k > p {
                        assert(lex_leq()(before[p as int], before[k]));
                        lemma_lex_le_transitive(x@, before[p as int], before[k]);
                    }
                }
            }
        }
        out.insert(p, x);
        proof {
            let after = char_vecs_view(out@);
            assert(after =~= before.insert(p as int, x@));
            assert(sorted_by(after, lex_leq())) by {
                assert forall|a: int, b: int| 0 <= a < b < after.len() implies #[trigger] lex_leq()(
                    after[a],
                    after[b],
                ) by {
                    if b < p {
                        assert(after[a] == before[a] && after[b] == before[b]);
                    } else if b == p {
                        assert(after[a] == before[a]);
                    } else if a < p {
                        assert(after[a] == before[a] && after[b] == before[b - 1]);
                        assert(lex_le(before[a], x@));
                        assert(lex_le(x@, before[b - 1]));
                        lemma_lex_le_transitive(before[a], x@, before[b - 1]);
                    } else if a == p {
                        assert(after[b] == before[b - 1]);
                    } else {
                        assert(after[a] == before[a - 1] && after[b] == before[b - 1]);
                    }
                }
            }
            assert(after.to_multiset() == before.to_multiset().insert(x@));
            assert(char_vecs_view(before_rest).to_multiset() == char_vecs_view(
                rest@,
            ).to_multiset().insert(x@));
            assert(after.to_multiset().add(char_vecs_view(rest@).to_multiset())
                =~= before.to_multiset().add(char_vecs_view(before_rest).to_multiset()));
        }
    }
    proof {
        assert(char_vecs_view(rest@) =~= Seq::<Seq<char>>::empty());
        assert(char_vecs_view(rest@).to_multiset() =~= Multiset::<Seq<char>>::empty());
        assert(char_vecs_view(out@).to_multiset() =~= input.to_multiset());
        lemma_sorted_strings(input);
        lemma_sorted_unique(char_vecs_view(out@), sorted_strings(input));
    }
    out
}

} // verus!
