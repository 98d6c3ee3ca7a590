//! Quoting of arbitrary text as a JavaScript string literal.
use vstd::prelude::*;

use crate::text::push_char;

verus! {

/// How one character is written inside a double-quoted JavaScript literal.
pub open spec fn js_escape_char(c: char) -> Seq<char> {
    if c == '\\' {
        seq!['\\', '\\']
    } else if c == '"' {
        seq!['\\', '"']
    } else if c == '\n' {
        seq!['\\', 'n']
    } else if c == '\r' {
        seq!['\\', 'r']
    } else if c == '\t' {
        seq!['\\', 't']
    } else {
        seq![c]
    }
}

/// The escaped body of a JavaScript literal for `s`.
pub open spec fn js_escape(s: Seq<char>) -> Seq<char>
    decreases s.len(),
{
    if s.len() == 0 {
        Seq::empty()
    } else {
        js_escape_char(s[0]) + js_escape(s.drop_first())
    }
}

/// The double-quoted JavaScript string literal that denotes `s`.
pub open spec fn js_literal(s: Seq<char>) -> Seq<char> {
    seq!['"'] + js_escape(s) + seq!['"']
}

/// The character that a backslash escape `\c` stands for in JavaScript.
pub open spec fn js_escaped_value(c: char) -> char {
    if c == 'n' {
        '\n'
    } else if c == 'r' {
        '\r'
    } else if c == 't' {
        '\t'
    } else {
        c
    }
}

/// How JavaScript reads the body of a string literal that uses the escapes
/// `\\`, `\"`, `\n`, `\r` and `\t`.
pub open spec fn js_unescape(t: Seq<char>) -> Seq<char>
    decreases t.len(),
{
    if t.len() == 0 {
        Seq::empty()
    } else if t[0] == '\\' && t.len() >= 2 {
        seq![js_escaped_value(t[1])] + js_unescape(t.subrange(2, t.len() as int))
    } else {
        seq![t[0]] + js_unescape(t.drop_first())
    }
}

/// Escaping distributes over concatenation.
pub proof fn lemma_js_escape_append(a: Seq<char>, b: Seq<char>)
    ensures
        js_escape(a + b) == js_escape(a) + js_escape(b),
    decreases a.len(),
{
    if a.len() == 0 {
        assert(a + b =~= b);
        assert(js_escape(a) =~= Seq::<char>::empty());
        assert(js_escape(a) + js_escape(b) =~= js_escape(b));
    } else {
        assert((a + b).drop_first() =~= a.drop_first() + b);
        lemma_js_escape_append(a.drop_first(), b);
        assert(js_escape(a + b) =~= js_escape_char(a[0]) + (js_escape(a.drop_first()) + js_escape(b)));
    }
}

/// A literal made by `js_string_literal` reads back, in JavaScript, as the
/// text it was made from.
pub proof fn lemma_js_unescape_escape(s: Seq<char>)
    ensures
        js_unescape(js_escape(s)) == s,
    decreases s.len(),
{
    if s.len() == 0 {
        assert(js_escape(s) =~= Seq::<char>::empty());
        assert(js_unescape(js_escape(s)) =~= s);
    } else {
        let c = s[0];
        let rest = js_escape(s.drop_first());
        lemma_js_unescape_escape(s.drop_first());
        let t = js_escape_char(c) + rest;
        assert(js_escape(s) == t);
        if c == '\\' || c == '"' || c == '\n' || c == '\r' || c == '\t' {
            assert(t[0] == '\\');
            assert(t.subrange(2, t.len() as int) =~= rest);
        } else {
            assert(t.drop_first() =~= rest);
        }
        assert(js_unescape(t) =~= seq![c] + s.drop_first());
        assert(seq![c] + s.drop_first() =~= s);
    }
}

/// Different texts give different JavaScript literals.
pub proof fn lemma_js_literal_injective(a: Seq<char>, b: Seq<char>)
    requires
        js_literal(a) == js_literal(b),
    ensures
        a == b,
{
    let la = js_literal(a);
    assert(js_escape(a) =~= la.subrange(1, la.len() - 1));
    assert(js_escape(b) =~= la.subrange(1, la.len() - 1));
    lemma_js_unescape_escape(a);
    lemma_js_unescape_escape(b);
}

/// The escaped body of a literal holds no raw line break and no quote that
/// is not preceded by a backslash, so the literal stays on one line and
/// ends at its closing quote.
pub proof fn lemma_js_escape_well_formed(s: Seq<char>)
    ensures
        forall|k: int|
            0 <= k < js_escape(s).len() ==> #[trigger] js_escape(s)[k] != '\n' && js_escape(s)[k]
                != '\r',
        forall|k: int|
            0 <= k < js_escape(s).len() && #[trigger] js_escape(s)[k] == '"' ==> k > 0 && js_escape(
                s,
            )[k - 1] == '\\',
    decreases s.len(),
{
    if s.len() > 0 {
        lemma_js_escape_well_formed(s.drop_first());
        let e = js_escape_char(s[0]);
        let rest = js_escape(s.drop_first());
        let t = e + rest;
        assert(js_escape(s) == t);
        assert forall|k: int| 0 <= k < t.len() implies #[trigger] t[k] != '\n' && t[k] != '\r' by {
            if k >= e.len() {
                assert(t[k] == rest[k - e.len()]);
            }
        }
        assert forall|k: int| 0 <= k < t.len() && #[trigger] t[k] == '"' implies k > 0 && t[k - 1]
            == '\\' by {
            if k >= e.len() {
                assert(t[k] == rest[k - e.len()]);
                if k - e.len() > 0 {
                    assert(t[k - 1] == rest[k - e.len() - 1]);
                } else {
                    // a quote never starts an escaped body
                    assert(false);
                }
            }
        }
    }
}

/// Appends the JavaScript literal for `value` to `out`.
pub fn push_js_literal(out: &mut String, value: &str)
    ensures
        final(out)@ == old(out)@ + js_literal(value@),
{
    let ghost start = out@;
    push_char(out, '"');
    let ghost s = value@;
    for ch in it: value.chars()
        invariant
            it.seq() == s,
            out@ == start + seq!['"'] + js_escape(s.take(it.index() as int)),
    {
        let ghost before = s.take(it.index() as int);
        if ch == '\\' {
            push_char(out, '\\');
            push_char(out, '\\');
        } else if ch == '"' {
            push_char(out, '\\');
            push_char(out, '"');
        } else if ch == '\n' {
            push_char(out, '\\');
            push_char(out, 'n');
        } else if ch == '\r' {
            push_char(out, '\\');
            push_char(out, 'r');
        } else if ch == '\t' {
            push_char(out, '\\');
            push_char(out, 't');
        } else {
            push_char(out, ch);
        }
        proof {
            assert(s.take(it.index() + 1) =~= before + seq![ch]);
            lemma_js_escape_append(before, seq![ch]);
            assert(seq![ch].drop_first() =~= Seq::<char>::empty());
            assert(js_escape(Seq::<char>::empty()) =~= Seq::<char>::empty());
            assert(js_escape(seq![ch]) =~= js_escape_char(ch));
        }
    }
    assert(s.take(s.len() as int) =~= s);
    push_char(out, '"');
}

/// The JavaScript string literal that denotes `value`.
pub fn js_string_literal(value: &str) -> (r: String)
    ensures
        r@ == js_literal(value@),
{
    let mut out = String::new();
    push_js_literal(&mut out, value);
    out
}

} // verus!
