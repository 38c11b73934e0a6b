//! Small verified text utilities shared by the image resolver and the query
//! composer: character-level string equality, whitespace trimming, quote
//! stripping and locale-suffix stripping.

use vstd::prelude::*;
use vstd::string::*;

verus! {

/// An ASCII whitespace character, the shapes that occur around free-text
/// queries.
pub open spec fn is_space_char(c: char) -> bool {
    c == ' ' || c == '\t' || c == '\n' || c == '\r'
}

/// The sequence with its leading whitespace removed.
pub open spec fn trim_start_spec(s: Seq<char>) -> Seq<char>
    decreases s.len(),
{
    if s.len() == 0 {
        s
    } else if is_space_char(s[0]) {
        trim_start_spec(s.drop_first())
    } else {
        s
    }
}

/// The sequence with its trailing whitespace removed.
pub open spec fn trim_end_spec(s: Seq<char>) -> Seq<char>
    decreases s.len(),
{
    if s.len() == 0 {
        s
    } else if is_space_char(s.last()) {
        trim_end_spec(s.drop_last())
    } else {
        s
    }
}

/// The sequence with leading and trailing whitespace removed.
pub open spec fn trim_spec(s: Seq<char>) -> Seq<char> {
    trim_end_spec(trim_start_spec(s))
}

/// The sequence with every double-quote character removed.
pub open spec fn strip_quotes_spec(s: Seq<char>) -> Seq<char>
    decreases s.len(),
{
    if s.len() == 0 {
        s
    } else {
        let rest = strip_quotes_spec(s.drop_last());
        if s.last() == '"' {
            rest
        } else {
            rest.push(s.last())
        }
    }
}

/// Whether the sequence ends in one of the locale suffixes `_de` or `_en`.
pub open spec fn has_locale_suffix(s: Seq<char>) -> bool {
    s.len() >= 3 && s[s.len() - 3] == '_' && ((s[s.len() - 2] == 'd' && s[s.len() - 1] == 'e') || (
    s[s.len() - 2] == 'e' && s[s.len() - 1] == 'n'))
}

/// The sequence with a trailing locale suffix removed, if it carries one.
pub open spec fn strip_locale_suffix_spec(s: Seq<char>) -> Seq<char> {
    if has_locale_suffix(s) {
        s.take(s.len() - 3)
    } else {
        s
    }
}

fn is_space(c: char) -> (r: bool)
    ensures
        r == is_space_char(c),
{
    c == ' ' || c == '\t' || c == '\n' || c == '\r'
}

/// Character-level equality of two string slices.
pub fn str_eq(a: &str, b: &str) -> (r: bool)
    ensures
        r == (a@ == b@),
{
    let na = a.unicode_len();
    let nb = b.unicode_len();
    if na != nb {
        return false;
    }
    let mut i: usize = 0;
    while i < na
        invariant
            na == a@.len(),
            na == b@.len(),
            i <= na,
            forall|j: int| 0 <= j < i ==> a@[j] == b@[j],
        decreases na - i,
    {
        if a.get_char(i) != b.get_char(i) {
            return false;
        }
        i = i + 1;
    }
    proof {
        assert(a@ =~= b@);
    }
    true
}

/// Removes leading and trailing whitespace.
pub fn trimmed(s: &str) -> (r: String)
    ensures
        r@ == trim_spec(s@),
{
    let n = s.unicode_len();
    proof {
        assert(s@.skip(0) =~= s@);
    }
    let mut i: usize = 0;
    while i < n && is_space(s.get_char(i))
        invariant
            n == s@.len(),
            i <= n,
            trim_start_spec(s@) == trim_start_spec(s@.skip(i as int)),
        decreases n - i,
    {
        proof {
            assert(s@.skip(i as int).drop_first() =~= s@.skip(i + 1));
        }
        i = i + 1;
    }
    proof {
        if i < n {
            assert(s@.skip(i as int)[0] == s@[i as int]);
            assert(trim_start_spec(s@.skip(i as int)) == s@.skip(i as int));
        } else {
            assert(s@.skip(i as int) =~= Seq::<char>::empty());
        }
    }
    let mut j: usize = n;
    while j > i && is_space(s.get_char(j - 1))
        invariant
            n == s@.len(),
            i <= j <= n,
            trim_start_spec(s@) == s@.skip(i as int),
            trim_end_spec(s@.skip(i as int)) == trim_end_spec(s@.subrange(i as int, j as int)),
        decreases j,
    {
        proof {
            assert(s@.subrange(i as int, j as int).last() == s@[j - 1]);
            assert(s@.subrange(i as int, j as int).drop_last() =~= s@.subrange(i as int, j - 1));
        }
        j = j - 1;
    }
    proof {
        let mid = s@.subrange(i as int, j as int);
        if j > i {
            assert(mid.last() == s@[j - 1]);
            assert(trim_end_spec(mid) == mid);
        } else {
            assert(mid =~= Seq::<char>::empty());
        }
    }
    let r = s.substring_char(i, j);
    r.to_owned()
}

/// Removes every double-quote character.
pub fn strip_quotes(s: &str) -> (r: String)
    ensures
        r@ == strip_quotes_spec(s@),
{
    let n = s.unicode_len();
    let mut out = String::new();
    let mut i: usize = 0;
    while i < n
        invariant
            n == s@.len(),
            i <= n,
            out@ == strip_quotes_spec(s@.take(i as int)),
        decreases n - i,
    {
        let c = s.get_char(i);
        proof {
            assert(s@.take(i + 1).drop_last() =~= s@.take(i as int));
            assert(s@.take(i + 1).last() == s@[i as int]);
        }
        if c != '"' {
            let piece = s.substring_char(i, i + 1);
            proof {
                assert(piece@ =~= seq![s@[i as int]]);
                assert(out@ + piece@ =~= strip_quotes_spec(s@.take(i as int)).push(s@[i as int]));
            }
            out.append(piece);
        }
        i = i + 1;
    }
    proof {
        assert(s@.take(n as int) =~= s@);
    }
    out
}

/// Removes a trailing `_de` or `_en` locale suffix, turning an internal
/// localized field name into its locale-agnostic label.
pub fn strip_locale_suffix(s: &str) -> (r: String)
    ensures
        r@ == strip_locale_suffix_spec(s@),
{
    let n = s.unicode_len();
    if n >= 3 {
        let c0 = s.get_char(n - 3);
        let c1 = s.get_char(n - 2);
        let c2 = s.get_char(n - 1);
        if c0 == '_' && ((c1 == 'd' && c2 == 'e') || (c1 == 'e' && c2 == 'n')) {
            let r = s.substring_char(0, n - 3);
            proof {
                assert(r@ =~= s@.take(s@.len() - 3));
            }
            return r.to_owned();
        }
    }
    s.to_owned()
}

} // verus!
