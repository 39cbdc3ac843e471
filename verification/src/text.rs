//! Character classes and small string helpers shared by the classifier,
//! the reply builder and the wire encoder.

use vstd::prelude::*;

verus! {

/// The characters with the Unicode `White_Space` property. A link match,
/// trimming and the blank-line test all end at such a character.
pub open spec fn is_space(c: char) -> bool {
    let u: u32 = c as u32;
    u == 0x20 || (0x9 <= u && u <= 0xD) || u == 0x85 || u == 0xA0 || u == 0x1680
        || (0x2000 <= u && u <= 0x200A) || u == 0x2028 || u == 0x2029 || u == 0x202F
        || u == 0x205F || u == 0x3000
}

/// Runtime test for [`is_space`].
pub fn space_char(c: char) -> (r: bool)
    ensures
        r == is_space(c),
{
    let u: u32 = c as u32;
    u == 0x20 || (0x9 <= u && u <= 0xD) || u == 0x85 || u == 0xA0 || u == 0x1680
        || (0x2000 <= u && u <= 0x200A) || u == 0x2028 || u == 0x2029 || u == 0x202F
        || u == 0x205F || u == 0x3000
}

/// Whether every character of `s` is whitespace; holds of the empty string.
pub open spec fn all_space(s: Seq<char>) -> bool {
    forall|k: int| 0 <= k < s.len() ==> is_space(#[trigger] s[k])
}

/// Runtime test for [`all_space`].
pub fn blank(s: &str) -> (r: bool)
    ensures
        r == all_space(s@),
{
    let n: usize = s.unicode_len();
    let mut i: usize = 0;
    while i < n
        invariant
            i <= n,
            n == s@.len(),
            forall|k: int| 0 <= k < i ==> is_space(#[trigger] s@[k]),
        decreases n - i,
    {
        if !space_char(s.get_char(i)) {
            return false;
        }
        i += 1;
    }
    true
}

/// The literal `lit` occurs in `s` starting at position `i`.
pub open spec fn lit_at(s: Seq<char>, i: int, lit: Seq<char>) -> bool {
    0 <= i && i + lit.len() <= s.len() && s.subrange(i, i + lit.len()) == lit
}

/// Runtime test for [`lit_at`].
pub fn match_lit(s: &str, n: usize, i: usize, lit: &str) -> (r: bool)
    requires
        i <= n,
        n == s@.len(),
    ensures
        r == lit_at(s@, i as int, lit@),
{
    let m: usize = lit.unicode_len();
    if m > n - i {
        assert(!lit_at(s@, i as int, lit@));
        return false;
    }
    let mut k: usize = 0;
    while k < m
        invariant
            k <= m,
            m == lit@.len(),
            n == s@.len(),
            i + m <= n,
            forall|kk: int| 0 <= kk < k ==> s@[i + kk] == lit@[kk],
        decreases m - k,
    {
        if s.get_char(i + k) != lit.get_char(k) {
            assert(s@.subrange(i as int, i + m) != lit@) by {
                assert(s@.subrange(i as int, i + m)[k as int] == s@[i + k]);
            }
            return false;
        }
        k += 1;
    }
    assert(s@.subrange(i as int, i + m) =~= lit@);
    true
}

/// Runtime test of whole-string equality with a pattern.
pub fn str_eq(s: &str, lit: &str) -> (r: bool)
    ensures
        r == (s@ == lit@),
{
    let n: usize = s.unicode_len();
    let m: usize = lit.unicode_len();
    if n != m {
        return false;
    }
    let r = match_lit(s, n, 0, lit);
    proof {
        assert(s@.subrange(0, n as int) =~= s@);
    }
    r
}

/// The first position at or after `k` holding a whitespace character, or the
/// length of `s` when none follows.
pub open spec fn first_space_from(s: Seq<char>, k: int) -> int
    decreases s.len() - k when 0 <= k <= s.len()
{
    if k < s.len() && !is_space(s[k]) {
        first_space_from(s, k + 1)
    } else {
        k
    }
}

pub proof fn lemma_first_space_from(s: Seq<char>, k: int)
    requires
        0 <= k <= s.len(),
    ensures
        k <= first_space_from(s, k) <= s.len(),
        forall|j: int| k <= j < first_space_from(s, k) ==> !is_space(#[trigger] s[j]),
        first_space_from(s, k) < s.len() ==> is_space(s[first_space_from(s, k)]),
    decreases s.len() - k,
{
    if k < s.len() && !is_space(s[k]) {
        lemma_first_space_from(s, k + 1);
    }
}

/// Runtime scan for [`first_space_from`].
pub fn scan_to_space(s: &str, n: usize, k: usize) -> (r: usize)
    requires
        k <= n,
        n == s@.len(),
    ensures
        r == first_space_from(s@, k as int),
{
    let mut j: usize = k;
    while j < n && !space_char(s.get_char(j))
        invariant
            k <= j <= n,
            n == s@.len(),
            first_space_from(s@, k as int) == first_space_from(s@, j as int),
        decreases n - j,
    {
        j += 1;
    }
    j
}

/// The first position at or after `k` holding a non-whitespace character, or
/// the length of `s` when the rest is blank.
pub open spec fn first_nonspace_from(s: Seq<char>, k: int) -> int
    decreases s.len() - k when 0 <= k <= s.len()
{
    if k < s.len() && is_space(s[k]) {
        first_nonspace_from(s, k + 1)
    } else {
        k
    }
}

/// One past the last non-whitespace character in `s.subrange(a, b)`, walking
/// down from `b`; `a` itself when that range is blank.
pub open spec fn last_nonspace_to(s: Seq<char>, a: int, b: int) -> int
    decreases b - a when 0 <= a <= b <= s.len()
{
    if b > a && is_space(s[b - 1]) {
        last_nonspace_to(s, a, b - 1)
    } else {
        b
    }
}

/// `s` with leading and trailing whitespace removed.
pub open spec fn spec_trim(s: Seq<char>) -> Seq<char> {
    let a = first_nonspace_from(s, 0);
    if a == s.len() {
        Seq::<char>::empty()
    } else {
        s.subrange(a, last_nonspace_to(s, a, s.len() as int))
    }
}

/// Runtime trim for [`spec_trim`]; returns a fresh `String`.
pub fn trim_text(s: &str) -> (r: String)
    ensures
        r@ == spec_trim(s@),
{
    let n: usize = s.unicode_len();
    let mut a: usize = 0;
    while a < n && space_char(s.get_char(a))
        invariant
            a <= n,
            n == s@.len(),
            first_nonspace_from(s@, 0) == first_nonspace_from(s@, a as int),
        decreases n - a,
    {
        a += 1;
    }
    if a == n {
        return String::new();
    }
    let mut b: usize = n;
    while b > a && space_char(s.get_char(b - 1))
        invariant
            a <= b <= n,
            n == s@.len(),
            last_nonspace_to(s@, a as int, n as int) == last_nonspace_to(s@, a as int, b as int),
        decreases b,
    {
        b -= 1;
    }
    s.substring_char(a, b).to_owned()
}

} // verus!
