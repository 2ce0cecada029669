//! ASCII whitespace trimming and case-insensitive comparison, used when
//! parsing country and currency codes from free-form text.

use vstd::prelude::*;

verus! {

/// An ASCII whitespace character.
pub open spec fn is_space(c: char) -> bool {
    c == ' ' || c == '\t' || c == '\n' || c == '\r' || c == '\u{b}' || c == '\u{c}'
}

/// Every character is ASCII whitespace; holds in particular of the empty
/// string.
pub open spec fn is_blank(s: Seq<char>) -> bool {
    forall|i: int| 0 <= i < s.len() ==> is_space(#[trigger] s[i])
}

/// The sequence without its leading whitespace.
pub open spec fn trim_start_spec(s: Seq<char>) -> Seq<char>
    decreases s.len(),
{
    if s.len() > 0 && is_space(s[0]) {
        trim_start_spec(s.drop_first())
    } else {
        s
    }
}

/// The sequence without its trailing whitespace.
pub open spec fn trim_end_spec(s: Seq<char>) -> Seq<char>
    decreases s.len(),
{
    if s.len() > 0 && is_space(s.last()) {
        trim_end_spec(s.drop_last())
    } else {
        s
    }
}

/// The sequence without leading and trailing whitespace.
pub open spec fn trim_spec(s: Seq<char>) -> Seq<char> {
    trim_end_spec(trim_start_spec(s))
}

/// `c` reads as the upper-case character `u` when ASCII case is ignored:
/// either the same character, or its lower-case form.
pub open spec fn upeq(c: char, u: char) -> bool {
    c == u || ('a' <= c && c <= 'z' && 'A' <= u && u <= 'Z' && c as u32 == u as u32 + 32)
}

/// `s` equals `t` up to ASCII case, `t` being the upper-case reference.
pub open spec fn eq_icase(s: Seq<char>, t: Seq<char>) -> bool {
    s.len() == t.len() && forall|i: int| 0 <= i < s.len() ==> upeq(s[i], #[trigger] t[i])
}

proof fn lemma_trim_start_skip(s: Seq<char>, i: int)
    requires
        0 <= i <= s.len(),
        forall|k: int| 0 <= k < i ==> is_space(#[trigger] s[k]),
        i < s.len() ==> !is_space(s[i]),
    ensures
        trim_start_spec(s) =~= s.subrange(i, s.len() as int),
    decreases i,
{
    if i == 0 {
        assert(trim_start_spec(s) == s);
    } else {
        assert(is_space(s[0]));
        lemma_trim_start_skip(s.drop_first(), i - 1);
        assert(s.drop_first().subrange(i - 1, s.len() - 1) =~= s.subrange(i, s.len() as int));
    }
}

proof fn lemma_trim_end_skip(s: Seq<char>, j: int)
    requires
        0 <= j <= s.len(),
        forall|k: int| j <= k < s.len() ==> is_space(#[trigger] s[k]),
        j > 0 ==> !is_space(s[j - 1]),
    ensures
        trim_end_spec(s) =~= s.subrange(0, j),
    decreases s.len() - j,
{
    if j == s.len() {
        if s.len() > 0 {
            assert(!is_space(s.last()));
        }
        assert(trim_end_spec(s) =~= s.subrange(0, j));
    } else {
        assert(is_space(s.last()));
        lemma_trim_end_skip(s.drop_last(), j);
        assert(s.drop_last().subrange(0, j) =~= s.subrange(0, j));
    }
}

/// Whether the character is ASCII whitespace.
fn is_space_char(c: char) -> (r: bool)
    ensures
        r == is_space(c),
{
    c == ' ' || c == '\t' || c == '\n' || c == '\r' || c == '\u{b}' || c == '\u{c}'
}

/// Whether the string is empty or all whitespace.
pub fn str_is_blank(s: &str) -> (r: bool)
    ensures
        r == is_blank(s@),
{
    let n = s.unicode_len();
    let mut i: usize = 0;
    while i < n
        invariant
            n == s@.len(),
            0 <= i <= n,
            forall|k: int| 0 <= k < i ==> is_space(#[trigger] s@[k]),
        decreases n - i,
    {
        if !is_space_char(s.get_char(i)) {
            return false;
        }
        i = i + 1;
    }
    true
}

/// Locates the whitespace-trimmed segment of `s`: the bounds `(i, j)` with
/// `trim_spec(s@) == s@.subrange(i, j)`.
fn trim_bounds(s: &str) -> (r: (usize, usize))
    ensures
        0 <= r.0 <= r.1 <= s@.len(),
        trim_spec(s@) =~= s@.subrange(r.0 as int, r.1 as int),
{
    let n = s.unicode_len();
    let mut i: usize = 0;
    while i < n && is_space_char(s.get_char(i))
        invariant
            n == s@.len(),
            0 <= i <= n,
            forall|k: int| 0 <= k < i ==> is_space(#[trigger] s@[k]),
        decreases n - i,
    {
        i = i + 1;
    }
    proof {
        lemma_trim_start_skip(s@, i as int);
    }
    if i == n {
        proof {
            assert(trim_start_spec(s@) =~= Seq::<char>::empty());
            assert(trim_spec(s@) =~= s@.subrange(n as int, n as int));
        }
        return (n, n);
    }
    let mut j: usize = n;
    while j > i && is_space_char(s.get_char(j - 1))
        invariant
            n == s@.len(),
            i < n,
            !is_space(s@[i as int]),
            i <= j <= n,
            forall|k: int| j <= k < n ==> is_space(#[trigger] s@[k]),
        decreases j,
    {
        j = j - 1;
    }
    proof {
        let ghost head = s@.subrange(i as int, n as int);
        assert(j > i);
        assert(!is_space(head[j - i - 1]));
        lemma_trim_end_skip(head, j - i as int);
        assert(head.subrange(0, j - i as int) =~= s@.subrange(i as int, j as int));
    }
    (i, j)
}

/// Whether `s`, trimmed of surrounding whitespace, equals `t` exactly.
pub fn str_trim_eq(s: &str, t: &str) -> (r: bool)
    ensures
        r == (trim_spec(s@) == t@),
{
    let (i, j) = trim_bounds(s);
    let m = t.unicode_len();
    if j - i != m {
        proof {
            assert(trim_spec(s@) !~= t@);
        }
        return false;
    }
    let mut k: usize = 0;
    while k < m
        invariant
            m == t@.len(),
            0 <= i <= j <= s@.len(),
            j - i == m,
            0 <= k <= m,
            trim_spec(s@) =~= s@.subrange(i as int, j as int),
            forall|q: int| 0 <= q < k ==> s@[i + q] == t@[q],
        decreases m - k,
    {
        if s.get_char(i + k) != t.get_char(k) {
            proof {
                assert(trim_spec(s@)[k as int] != t@[k as int]);
            }
            return false;
        }
        k = k + 1;
    }
    proof {
        assert(trim_spec(s@) =~= t@);
    }
    true
}

/// Whether `s`, trimmed of surrounding whitespace, equals the upper-case
/// reference `t` when ASCII case is ignored.
pub fn str_trim_eq_icase(s: &str, t: &str) -> (r: bool)
    ensures
        r == eq_icase(trim_spec(s@), t@),
{
    let (i, j) = trim_bounds(s);
    let m = t.unicode_len();
    if j - i != m {
        return false;
    }
    let mut k: usize = 0;
    while k < m
        invariant
            m == t@.len(),
            0 <= i <= j <= s@.len(),
            j - i == m,
            0 <= k <= m,
            trim_spec(s@) =~= s@.subrange(i as int, j as int),
            forall|q: int| 0 <= q < k ==> upeq(s@[i + q], #[trigger] t@[q]),
        decreases m - k,
    {
        let c = s.get_char(i + k);
        let u = t.get_char(k);
        let cu = c as u32;
        let uu = u as u32;
        let same = c == u || (97 <= cu && cu <= 122 && 65 <= uu && uu <= 90 && cu == uu + 32);
        if !same {
            proof {
                assert(!upeq(trim_spec(s@)[k as int], t@[k as int]));
            }
            return false;
        }
        k = k + 1;
    }
    true
}

} // verus!
