//! The link classifier: finds the first recognized video-sharing URL in a
//! message, TikTok before Instagram.
//!
//! A URL match is `scheme`, then an optional known subdomain, then the
//! platform domain with a trailing slash, then at least one character of
//! path; the path runs to the first whitespace character or the end of the
//! text. The alternatives below are tested longest-head-first; no two of
//! them can match at the same position (their first characters differ), so
//! the `if`/`else` chains pick the only possible parse.

use crate::text::{first_space_from, is_space, lemma_first_space_from, lit_at, match_lit,
    scan_to_space, space_char};
use vstd::prelude::*;

verus! {

/// A recognized video platform, in precedence order.
#[derive(Clone, Copy, PartialEq, Eq, Structural, Debug)]
pub enum Platform {
    TikTok,
    Instagram,
}

/// One link worth analysing, with the platform it was recognized as.
pub struct DetectedLink {
    pub platform: Platform,
    pub url: String,
}

#[verifier::ext_equal]
pub struct DetectedLinkV {
    pub platform: Platform,
    pub url: Seq<char>,
}

impl View for DetectedLink {
    type V = DetectedLinkV;

    open spec fn view(&self) -> DetectedLinkV {
        DetectedLinkV { platform: self.platform, url: self.url@ }
    }
}

/// The length of the URL scheme found at `i`, if any.
pub open spec fn scheme_len_at(s: Seq<char>, i: int) -> Option<int> {
    if lit_at(s, i, "https://"@) {
        Some(8)
    } else if lit_at(s, i, "http://"@) {
        Some(7)
    } else {
        None
    }
}

/// The length of the known TikTok subdomain found at `j`, zero when none.
pub open spec fn tiktok_sub_len(s: Seq<char>, j: int) -> int {
    if lit_at(s, j, "www."@) {
        4
    } else if lit_at(s, j, "vm."@) {
        3
    } else if lit_at(s, j, "vt."@) {
        3
    } else if lit_at(s, j, "m."@) {
        2
    } else if lit_at(s, j, "t."@) {
        2
    } else {
        0
    }
}

/// The length of a full TikTok URL head (scheme, optional subdomain, domain
/// and its slash) starting at `i`, if one is there.
pub open spec fn tiktok_head_len_at(s: Seq<char>, i: int) -> Option<int> {
    match scheme_len_at(s, i) {
        None => None,
        Some(sl) => {
            let k = i + sl + tiktok_sub_len(s, i + sl);
            if lit_at(s, k, "tiktok.com/"@) {
                Some(k + 11 - i)
            } else {
                None
            }
        },
    }
}

/// A TikTok URL starts at `i`: a head followed by at least one
/// non-whitespace path character.
pub open spec fn tiktok_match_at(s: Seq<char>, i: int) -> bool {
    match tiktok_head_len_at(s, i) {
        None => false,
        Some(h) => i + h < s.len() && !is_space(s[i + h]),
    }
}

/// The length of the optional Instagram subdomain found at `j`.
pub open spec fn insta_sub_len(s: Seq<char>, j: int) -> int {
    if lit_at(s, j, "www."@) {
        4
    } else {
        0
    }
}

/// The length of the Instagram content-kind segment found at `k`, if any.
pub open spec fn insta_kind_len_at(s: Seq<char>, k: int) -> Option<int> {
    if lit_at(s, k, "reel/"@) {
        Some(5)
    } else if lit_at(s, k, "p/"@) {
        Some(2)
    } else if lit_at(s, k, "t/"@) {
        Some(2)
    } else if lit_at(s, k, "v/"@) {
        Some(2)
    } else {
        None
    }
}

/// The length of a full Instagram URL head starting at `i`, if one is there.
pub open spec fn insta_head_len_at(s: Seq<char>, i: int) -> Option<int> {
    match scheme_len_at(s, i) {
        None => None,
        Some(sl) => {
            let k = i + sl + insta_sub_len(s, i + sl);
            if lit_at(s, k, "instagram.com/"@) {
                match insta_kind_len_at(s, k + 14) {
                    None => None,
                    Some(kl) => Some(k + 14 + kl - i),
                }
            } else {
                None
            }
        },
    }
}

/// An Instagram URL starts at `i`.
pub open spec fn insta_match_at(s: Seq<char>, i: int) -> bool {
    match insta_head_len_at(s, i) {
        None => false,
        Some(h) => i + h < s.len() && !is_space(s[i + h]),
    }
}

/// The leftmost TikTok match at or after `i`.
pub open spec fn first_tiktok_from(s: Seq<char>, i: int) -> Option<int>
    decreases s.len() - i when 0 <= i <= s.len()
{
    if i >= s.len() {
        None
    } else if tiktok_match_at(s, i) {
        Some(i)
    } else {
        first_tiktok_from(s, i + 1)
    }
}

/// The leftmost Instagram match at or after `i`.
pub open spec fn first_insta_from(s: Seq<char>, i: int) -> Option<int>
    decreases s.len() - i when 0 <= i <= s.len()
{
    if i >= s.len() {
        None
    } else if insta_match_at(s, i) {
        Some(i)
    } else {
        first_insta_from(s, i + 1)
    }
}

/// The URL whose head of length `h` starts at `i`: everything up to the
/// first whitespace character or the end of the text.
pub open spec fn url_at(s: Seq<char>, i: int, h: int) -> Seq<char> {
    s.subrange(i, first_space_from(s, i + h))
}

/// What the classifier returns on a message: the leftmost TikTok link if the
/// text holds any, else the leftmost Instagram link, else nothing.
pub open spec fn spec_find_link(s: Seq<char>) -> Option<DetectedLinkV> {
    match first_tiktok_from(s, 0) {
        Some(i) => Some(
            DetectedLinkV {
                platform: Platform::TikTok,
                url: url_at(s, i, tiktok_head_len_at(s, i)->Some_0),
            },
        ),
        None => match first_insta_from(s, 0) {
            Some(i) => Some(
                DetectedLinkV {
                    platform: Platform::Instagram,
                    url: url_at(s, i, insta_head_len_at(s, i)->Some_0),
                },
            ),
            None => None,
        },
    }
}

/// Runtime test for [`tiktok_head_len_at`].
fn tiktok_head_len(s: &str, n: usize, i: usize) -> (r: Option<usize>)
    requires
        i <= n,
        n == s@.len(),
    ensures
        (match r {
            Some(h) => tiktok_head_len_at(s@, i as int) == Some(h as int) && i + h <= n,
            None => tiktok_head_len_at(s@, i as int) is None,
        }),
{
    proof {
        reveal_strlit("https://");
        reveal_strlit("http://");
        reveal_strlit("www.");
        reveal_strlit("vm.");
        reveal_strlit("vt.");
        reveal_strlit("m.");
        reveal_strlit("t.");
        reveal_strlit("tiktok.com/");
    }
    let sl: usize = if match_lit(s, n, i, "https://") {
        8
    } else if match_lit(s, n, i, "http://") {
        7
    } else {
        return None;
    };
    let j: usize = i + sl;
    let sub: usize = if match_lit(s, n, j, "www.") {
        4
    } else if match_lit(s, n, j, "vm.") {
        3
    } else if match_lit(s, n, j, "vt.") {
        3
    } else if match_lit(s, n, j, "m.") {
        2
    } else if match_lit(s, n, j, "t.") {
        2
    } else {
        0
    };
    let k: usize = j + sub;
    if match_lit(s, n, k, "tiktok.com/") {
        Some(k + 11 - i)
    } else {
        None
    }
}

/// Runtime test for [`insta_head_len_at`].
fn insta_head_len(s: &str, n: usize, i: usize) -> (r: Option<usize>)
    requires
        i <= n,
        n == s@.len(),
    ensures
        (match r {
            Some(h) => insta_head_len_at(s@, i as int) == Some(h as int) && i + h <= n,
            None => insta_head_len_at(s@, i as int) is None,
        }),
{
    proof {
        reveal_strlit("https://");
        reveal_strlit("http://");
        reveal_strlit("www.");
        reveal_strlit("instagram.com/");
        reveal_strlit("reel/");
        reveal_strlit("p/");
        reveal_strlit("t/");
        reveal_strlit("v/");
    }
    let sl: usize = if match_lit(s, n, i, "https://") {
        8
    } else if match_lit(s, n, i, "http://") {
        7
    } else {
        return None;
    };
    let j: usize = i + sl;
    let sub: usize = if match_lit(s, n, j, "www.") {
        4
    } else {
        0
    };
    let k: usize = j + sub;
    if !match_lit(s, n, k, "instagram.com/") {
        return None;
    }
    let kind: usize = if match_lit(s, n, k + 14, "reel/") {
        5
    } else if match_lit(s, n, k + 14, "p/") {
        2
    } else if match_lit(s, n, k + 14, "t/") {
        2
    } else if match_lit(s, n, k + 14, "v/") {
        2
    } else {
        return None;
    };
    Some(k + 14 + kind - i)
}

/// The classifier: the first recognized link of the message, the TikTok one
/// when both platforms appear, or nothing when no pattern matches.
pub fn find_link(text: &str) -> (r: Option<DetectedLink>)
    ensures
        (match r {
            Some(link) => spec_find_link(text@) == Some(link@),
            None => spec_find_link(text@) is None,
        }),
{
    let n: usize = text.unicode_len();
    let mut i: usize = 0;
    while i < n
        invariant
            i <= n,
            n == text@.len(),
            first_tiktok_from(text@, 0) == first_tiktok_from(text@, i as int),
        decreases n - i,
    {
        if let Some(h) = tiktok_head_len(text, n, i) {
            if i + h < n && !space_char(text.get_char(i + h)) {
                assert(tiktok_match_at(text@, i as int));
                let j: usize = scan_to_space(text, n, i + h);
                proof {
                    lemma_first_space_from(text@, (i + h) as int);
                }
                let url = text.substring_char(i, j).to_owned();
                return Some(DetectedLink { platform: Platform::TikTok, url });
            }
        }
        assert(!tiktok_match_at(text@, i as int));
        i += 1;
    }
    let mut i: usize = 0;
    while i < n
        invariant
            i <= n,
            n == text@.len(),
            first_tiktok_from(text@, 0) is None,
            first_insta_from(text@, 0) == first_insta_from(text@, i as int),
        decreases n - i,
    {
        if let Some(h) = insta_head_len(text, n, i) {
            if i + h < n && !space_char(text.get_char(i + h)) {
                assert(insta_match_at(text@, i as int));
                let j: usize = scan_to_space(text, n, i + h);
                proof {
                    lemma_first_space_from(text@, (i + h) as int);
                }
                let url = text.substring_char(i, j).to_owned();
                return Some(DetectedLink { platform: Platform::Instagram, url });
            }
        }
        assert(!insta_match_at(text@, i as int));
        i += 1;
    }
    None
}

/// Every TikTok match lies within the text.
pub proof fn lemma_match_in_range(s: Seq<char>, m: int)
    requires
        tiktok_match_at(s, m),
    ensures
        0 <= m < s.len(),
{
}

/// Every Instagram match lies within the text.
pub proof fn lemma_insta_match_in_range(s: Seq<char>, m: int)
    requires
        insta_match_at(s, m),
    ensures
        0 <= m < s.len(),
{
}

/// The TikTok scan picks exactly the leftmost match at or after its start,
/// and comes back empty only when no position at all matches.
pub proof fn lemma_first_tiktok_characterizes(s: Seq<char>, k: int)
    requires
        0 <= k <= s.len(),
    ensures
        (match first_tiktok_from(s, k) {
            Some(i) => k <= i < s.len() && tiktok_match_at(s, i) && (forall|j: int|
                k <= j < i ==> !tiktok_match_at(s, j)),
            None => forall|j: int| k <= j ==> !tiktok_match_at(s, j),
        }),
    decreases s.len() - k,
{
    if k >= s.len() {
        assert forall|j: int| k <= j implies !tiktok_match_at(s, j) by {
            if tiktok_match_at(s, j) {
                lemma_match_in_range(s, j);
            }
        }
    } else if !tiktok_match_at(s, k) {
        lemma_first_tiktok_characterizes(s, k + 1);
    }
}

/// The Instagram scan picks exactly the leftmost match at or after its
/// start, and comes back empty only when no position at all matches.
pub proof fn lemma_first_insta_characterizes(s: Seq<char>, k: int)
    requires
        0 <= k <= s.len(),
    ensures
        (match first_insta_from(s, k) {
            Some(i) => k <= i < s.len() && insta_match_at(s, i) && (forall|j: int|
                k <= j < i ==> !insta_match_at(s, j)),
            None => forall|j: int| k <= j ==> !insta_match_at(s, j),
        }),
    decreases s.len() - k,
{
    if k >= s.len() {
        assert forall|j: int| k <= j implies !insta_match_at(s, j) by {
            if insta_match_at(s, j) {
                lemma_insta_match_in_range(s, j);
            }
        }
    } else if !insta_match_at(s, k) {
        lemma_first_insta_characterizes(s, k + 1);
    }
}

/// A message in which no position matches either platform yields no link
/// at all: such an event is dropped with no further action.
pub proof fn lemma_no_match_no_link(s: Seq<char>)
    requires
        forall|i: int| !tiktok_match_at(s, i),
        forall|i: int| !insta_match_at(s, i),
    ensures
        spec_find_link(s) is None,
{
    lemma_first_tiktok_characterizes(s, 0);
    lemma_first_insta_characterizes(s, 0);
}

/// The leftmost-match scan finds a match when one exists at or beyond its
/// starting point.
proof fn lemma_first_tiktok_finds(s: Seq<char>, k: int, m: int)
    requires
        0 <= k <= m,
        tiktok_match_at(s, m),
    ensures
        first_tiktok_from(s, k) is Some,
    decreases m - k,
{
    lemma_match_in_range(s, m);
    if k < m && !tiktok_match_at(s, k) {
        lemma_first_tiktok_finds(s, k + 1, m);
    }
}

/// For a message holding a TikTok link anywhere — in particular one holding
/// both a TikTok and an Instagram link — the classifier yields exactly one
/// link, and it is the TikTok one.
pub proof fn lemma_tiktok_precedence(s: Seq<char>)
    requires
        exists|m: int| tiktok_match_at(s, m),
    ensures
        spec_find_link(s) is Some,
        spec_find_link(s)->Some_0.platform == Platform::TikTok,
{
    let m = choose|m: int| tiktok_match_at(s, m);
    lemma_match_in_range(s, m);
    lemma_first_tiktok_finds(s, 0, m);
}

} // verus!
