//! Text operations used to compose variable names.

use vstd::prelude::*;

verus! {

/// `prefix` and `fragment` joined by an underscore, or the fragment alone
/// when the prefix is empty.
pub open spec fn joined(prefix: Seq<char>, fragment: Seq<char>) -> Seq<char> {
    if prefix.len() == 0 {
        fragment
    } else {
        prefix + seq!['_'] + fragment
    }
}

/// `s` without one trailing underscore, when it ends with one.
pub open spec fn trimmed(s: Seq<char>) -> Seq<char> {
    if s.len() > 0 && s.last() == '_' {
        s.drop_last()
    } else {
        s
    }
}

/// Joins a prefix and a name fragment with an underscore.
pub fn join(prefix: &str, fragment: &str) -> (r: String)
    ensures
        r@ == joined(prefix@, fragment@),
{
    if prefix.unicode_len() == 0 {
        fragment.to_string()
    } else {
        let sep = "_";
        proof {
            reveal_strlit("_");
        }
        prefix.to_string().concat(sep).concat(fragment)
    }
}

/// Removes a single trailing underscore, if there is one.
pub fn trim_separator(s: &str) -> (r: String)
    ensures
        r@ == trimmed(s@),
{
    let n = s.unicode_len();
    if n > 0 && s.get_char(n - 1) == '_' {
        s.substring_char(0, n - 1).to_string()
    } else {
        s.to_string()
    }
}

/// The upper-case mapping of one character, as `char::to_uppercase` yields it.
pub uninterp spec fn upper_char(c: char) -> Seq<char>;

/// The upper case of a text: the upper-case mapping of each character, in order.
pub open spec fn upper(s: Seq<char>) -> Seq<char>
    decreases s.len(),
{
    if s.len() == 0 {
        Seq::empty()
    } else {
        upper(s.drop_last()) + upper_char(s.last())
    }
}

/// Relies on `char::to_uppercase`: the characters of the upper-case mapping
/// of `c`, which depend on `c` alone.
#[verifier::external_body]
fn char_upper(c: char) -> (r: String)
    ensures
        r@ == upper_char(c),
{
    c.to_uppercase().collect()
}

/// The upper case of `s`, character by character.
pub fn to_upper(s: &str) -> (r: String)
    ensures
        r@ == upper(s@),
{
    let n = s.unicode_len();
    let mut out = String::new();
    let mut i: usize = 0;
    while i < n
        invariant
            n == s@.len(),
            i <= n,
            out@ == upper(s@.take(i as int)),
        decreases n - i,
    {
        let c = s.get_char(i);
        let u = char_upper(c);
        out.append(u.as_str());
        assert(s@.take(i + 1).drop_last() == s@.take(i as int));
        i = i + 1;
    }
    assert(s@.take(n as int) == s@);
    out
}

/// Upper-casing distributes over concatenation.
pub proof fn lemma_upper_concat(a: Seq<char>, b: Seq<char>)
    ensures
        upper(a + b) == upper(a) + upper(b),
    decreases b.len(),
{
    if b.len() == 0 {
        assert(a + b == a);
    } else {
        lemma_upper_concat(a, b.drop_last());
        assert((a + b).drop_last() == a + b.drop_last());
    }
}

} // verus!
