//! Character-level text primitives shared by the decoders and the renderer:
//! string comparison and the quotation-escaping rule.

use vstd::prelude::*;

verus! {

/// Compares two string slices by their character sequences.
pub fn str_eq(a: &str, b: &str) -> (r: bool)
    ensures
        r == (a@ == b@),
{
    let a_len = a.unicode_len();
    let b_len = b.unicode_len();
    if a_len != b_len {
        return false;
    }
    let mut i: usize = 0;
    while i < a_len
        invariant
            a_len == a@.len(),
            b_len == b@.len(),
            a_len == b_len,
            i <= a_len,
            forall|j: int| 0 <= j < i ==> a@[j] == b@[j],
        decreases a_len - i,
    {
        if a.get_char(i) != b.get_char(i) {
            return false;
        }
        i = i + 1;
    }
    proof {
        assert(a@ =~= b@);
    }
    true
}

/// How one character is escaped: a double quote is doubled, every other
/// character stands unchanged.
pub open spec fn spec_escape_char(c: char) -> Seq<char> {
    if c == '"' {
        seq!['"', '"']
    } else {
        seq![c]
    }
}

/// The escaped form of a character sequence: each double quote doubled, no
/// other escaping.
pub open spec fn spec_escape(s: Seq<char>) -> Seq<char>
    decreases s.len(),
{
    if s.len() == 0 {
        Seq::empty()
    } else {
        spec_escape(s.drop_last()) + spec_escape_char(s.last())
    }
}

/// Escapes a string for use inside a quoted or bracketed diagram label by
/// doubling each double-quote character.
pub fn escape_quotes(s: &str) -> (r: String)
    ensures
        r@ == spec_escape(s@),
{
    let len = s.unicode_len();
    let mut out = String::new();
    let mut i: usize = 0;
    while i < len
        invariant
            len == s@.len(),
            i <= len,
            out@ == spec_escape(s@.take(i as int)),
        decreases len - i,
    {
        let c = s.get_char(i);
        if c == '"' {
            out.append("\"\"");
            proof {
                reveal_strlit("\"\"");
                assert("\"\""@ =~= spec_escape_char(c));
            }
        } else {
            let piece = s.substring_char(i, i + 1);
            out.append(piece);
            proof {
                assert(piece@ =~= spec_escape_char(c));
            }
        }
        proof {
            assert(s@.take(i + 1).drop_last() =~= s@.take(i as int));
            assert(s@.take(i + 1).last() == c);
        }
        i = i + 1;
    }
    proof {
        assert(s@.take(len as int) =~= s@);
    }
    out
}

/// Escaping distributes over concatenation.
pub proof fn lemma_escape_concat(a: Seq<char>, b: Seq<char>)
    ensures
        spec_escape(a + b) == spec_escape(a) + spec_escape(b),
    decreases b.len(),
{
    if b.len() == 0 {
        assert(a + b =~= a);
        assert(spec_escape(a) + spec_escape(b) =~= spec_escape(a));
    } else {
        lemma_escape_concat(a, b.drop_last());
        assert((a + b).drop_last() =~= a + b.drop_last());
        assert(spec_escape(a) + spec_escape(b.drop_last()) + spec_escape_char(b.last()) =~= spec_escape(
            a,
        ) + spec_escape(b));
    }
}

/// A sequence without double quotes escapes to itself.
pub proof fn lemma_escape_no_quote(s: Seq<char>)
    requires
        forall|i: int| 0 <= i < s.len() ==> s[i] != '"',
    ensures
        spec_escape(s) == s,
    decreases s.len(),
{
    if s.len() == 0 {
        assert(spec_escape(s) =~= s);
    } else {
        lemma_escape_no_quote(s.drop_last());
        assert(spec_escape(s) =~= s);
    }
}

/// Escaping is exact around a single embedded quote: a label made of a
/// quote-free prefix, one double-quote character, and a quote-free suffix
/// escapes to the same prefix, that quote doubled, and the same suffix —
/// no other character changes.
pub proof fn lemma_escape_doubles_single_quote(prefix: Seq<char>, suffix: Seq<char>)
    requires
        forall|i: int| 0 <= i < prefix.len() ==> prefix[i] != '"',
        forall|i: int| 0 <= i < suffix.len() ==> suffix[i] != '"',
    ensures
        spec_escape(prefix + seq!['"'] + suffix) == prefix + seq!['"', '"'] + suffix,
{
    lemma_escape_concat(prefix + seq!['"'], suffix);
    lemma_escape_concat(prefix, seq!['"']);
    lemma_escape_no_quote(prefix);
    lemma_escape_no_quote(suffix);
    assert(seq!['"'].drop_last() =~= Seq::<char>::empty());
    assert(spec_escape(Seq::<char>::empty()) =~= Seq::<char>::empty());
    assert(seq!['"'].last() == '"');
    assert(spec_escape(seq!['"']) =~= seq!['"', '"']);
    assert(spec_escape(prefix + seq!['"'] + suffix) =~= prefix + seq!['"', '"'] + suffix);
}

} // verus!
