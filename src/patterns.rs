//! The three matchers applied to each scanned line: tracking ids (`CRQ-` and
//! digits), URLs, and identifier-like terms.
//!
//! Each matcher walks the line from left to right. At each position it either
//! reports a match and jumps past it, or moves on; matches never overlap.
use vstd::prelude::*;
use vstd::slice::slice_subrange;

use crate::text::string_from_chars;

verus! {

/// The sets of characters that the matchers recognise.
#[derive(Clone, Copy, Debug, PartialEq, Eq, Structural)]
pub enum CharClass {
    /// `0` to `9`.
    Digit,
    /// Letters, digits and `_`.
    Word,
    /// Anything but white space.
    NonSpace,
    /// `.`, `,` and `)`, which are trimmed from the end of a URL.
    TrailingPunct,
}

pub open spec fn is_digit(c: char) -> bool {
    '0' <= c && c <= '9'
}

pub open spec fn is_letter(c: char) -> bool {
    ('a' <= c && c <= 'z') || ('A' <= c && c <= 'Z')
}

pub open spec fn is_space(c: char) -> bool {
    c == ' ' || c == '\t' || c == '\n' || c == '\r' || c == '\x0B' || c == '\x0C'
}

pub open spec fn in_class(cls: CharClass, c: char) -> bool {
    match cls {
        CharClass::Digit => is_digit(c),
        CharClass::Word => is_letter(c) || is_digit(c) || c == '_',
        CharClass::NonSpace => !is_space(c),
        CharClass::TrailingPunct => c == '.' || c == ',' || c == ')',
    }
}

/// A term starts with a letter or an underscore.
pub open spec fn starts_term(c: char) -> bool {
    is_letter(c) || c == '_'
}

/// How many characters of `cls` follow one another in `s` from position `i`.
pub open spec fn run_len(s: Seq<char>, i: int, cls: CharClass) -> nat
    decreases s.len() - i,
{
    if 0 <= i < s.len() && in_class(cls, s[i]) {
        1 + run_len(s, i + 1, cls)
    } else {
        0
    }
}

/// How many characters of `cls` stand right before position `j`, not going
/// below position `lo`.
pub open spec fn run_back_len(s: Seq<char>, lo: int, j: int, cls: CharClass) -> nat
    decreases j - lo,
{
    if lo < j && j <= s.len() && in_class(cls, s[j - 1]) {
        1 + run_back_len(s, lo, j - 1, cls)
    } else {
        0
    }
}

/// Whether `s` holds `w` from position `i`.
pub open spec fn holds_at(s: Seq<char>, i: int, w: Seq<char>) -> bool {
    0 <= i && i + w.len() <= s.len() && s.subrange(i, i + w.len()) == w
}

/// The kinds of pattern that a scan collects.
#[derive(Clone, Copy, Debug, PartialEq, Eq, Structural)]
pub enum PatternKind {
    TrackingId,
    Url,
    Term,
}

pub open spec fn tracking_prefix() -> Seq<char> {
    seq!['C', 'R', 'Q', '-']
}

pub open spec fn http_prefix() -> Seq<char> {
    seq!['h', 't', 't', 'p', ':', '/', '/']
}

pub open spec fn https_prefix() -> Seq<char> {
    seq!['h', 't', 't', 'p', 's', ':', '/', '/']
}

/// The length of the scheme that starts a URL at `i`, or 0.
pub open spec fn scheme_len(s: Seq<char>, i: int) -> int {
    if holds_at(s, i, https_prefix()) {
        8
    } else if holds_at(s, i, http_prefix()) {
        7
    } else {
        0
    }
}

/// What the matcher of `kind` finds at position `i` of `s`: the length of the
/// match there (0 for none), and how far the scan then moves on (at least 1).
pub open spec fn step_at(kind: PatternKind, s: Seq<char>, i: int) -> (int, int) {
    match kind {
        PatternKind::TrackingId => {
            let d = run_len(s, i + 4, CharClass::Digit);
            if holds_at(s, i, tracking_prefix()) && d > 0 {
                (4 + d as int, 4 + d as int)
            } else {
                (0, 1)
            }
        },
        PatternKind::Url => {
            let p = scheme_len(s, i);
            let r = run_len(s, i + p, CharClass::NonSpace);
            let t = r - run_back_len(s, i + p, i + p + r, CharClass::TrailingPunct);
            if p > 0 && t > 0 {
                (p + t, p + r)
            } else {
                (0, 1)
            }
        },
        PatternKind::Term => {
            let r = run_len(s, i, CharClass::Word);
            if r == 0 {
                (0, 1)
            } else if starts_term(s[i]) {
                (r as int, r as int)
            } else {
                (0, r as int)
            }
        },
    }
}

/// The matches of `kind` in `s` from position `i` on, left to right.
pub open spec fn matches_from(kind: PatternKind, s: Seq<char>, i: int) -> Seq<Seq<char>>
    decreases s.len() - i,
{
    if i < 0 || i >= s.len() {
        seq![]
    } else {
        let (m, adv) = step_at(kind, s, i);
        if adv < 1 || i + adv > s.len() {
            seq![]
        } else if m > 0 {
            seq![s.subrange(i, i + m)] + matches_from(kind, s, i + adv)
        } else {
            matches_from(kind, s, i + adv)
        }
    }
}

/// The matches of `kind` in the whole of `s`.
pub open spec fn matches_of(kind: PatternKind, s: Seq<char>) -> Seq<Seq<char>> {
    matches_from(kind, s, 0)
}

/// The views of a list of strings.
pub open spec fn views(v: Seq<String>) -> Seq<Seq<char>> {
    v.map_values(|x: String| x@)
}

proof fn lemma_run_len_bound(s: Seq<char>, i: int, cls: CharClass)
    requires
        0 <= i <= s.len(),
    ensures
        i + run_len(s, i, cls) <= s.len(),
    decreases s.len() - i,
{
    if i < s.len() && in_class(cls, s[i]) {
        lemma_run_len_bound(s, i + 1, cls);
    }
}

proof fn lemma_run_back_len_bound(s: Seq<char>, lo: int, j: int, cls: CharClass)
    requires
        lo <= j,
    ensures
        run_back_len(s, lo, j, cls) <= j - lo,
    decreases j - lo,
{
    if lo < j && j <= s.len() && in_class(cls, s[j - 1]) {
        lemma_run_back_len_bound(s, lo, j - 1, cls);
    }
}

/// Whether `c` belongs to `cls`.
pub fn class_has(cls: CharClass, c: char) -> (r: bool)
    ensures
        r == in_class(cls, c),
{
    match cls {
        CharClass::Digit => '0' <= c && c <= '9',
        CharClass::Word => ('a' <= c && c <= 'z') || ('A' <= c && c <= 'Z') || ('0' <= c && c
            <= '9') || c == '_',
        CharClass::NonSpace => !(c == ' ' || c == '\t' || c == '\n' || c == '\r' || c == '\x0B'
            || c == '\x0C'),
        CharClass::TrailingPunct => c == '.' || c == ',' || c == ')',
    }
}

/// The length of the run of `cls` that starts at `i`.
pub fn run_length(s: &[char], i: usize, cls: CharClass) -> (r: usize)
    requires
        i <= s@.len(),
    ensures
        r == run_len(s@, i as int, cls),
        i + r <= s@.len(),
{
    let mut j: usize = i;
    while j < s.len() && class_has(cls, s[j])
        invariant
            i <= j <= s@.len(),
            run_len(s@, i as int, cls) == (j - i) + run_len(s@, j as int, cls),
        decreases s@.len() - j,
    {
        j = j + 1;
    }
    proof {
        lemma_run_len_bound(s@, i as int, cls);
    }
    j - i
}

/// The length of the run of `cls` that ends right before `j`, not going below `lo`.
pub fn run_back_length(s: &[char], lo: usize, j: usize, cls: CharClass) -> (r: usize)
    requires
        lo <= j <= s@.len(),
    ensures
        r == run_back_len(s@, lo as int, j as int, cls),
        r <= j - lo,
{
    let mut k: usize = j;
    while k > lo && class_has(cls, s[k - 1])
        invariant
            lo <= k <= j <= s@.len(),
            run_back_len(s@, lo as int, j as int, cls) == (j - k) + run_back_len(
                s@,
                lo as int,
                k as int,
                cls,
            ),
        decreases k - lo,
    {
        k = k - 1;
    }
    proof {
        lemma_run_back_len_bound(s@, lo as int, j as int, cls);
    }
    j - k
}

/// Whether `s` holds `w` from position `i`.
pub fn holds_at_exec(s: &[char], i: usize, w: &[char]) -> (r: bool)
    ensures
        r == holds_at(s@, i as int, w@),
{
    let n: usize = s.len();
    if i > n || w.len() > n - i {
        return false;
    }
    let mut k: usize = 0;
    while k < w.len()
        invariant
            n == s@.len(),
            i <= n,
            i + w@.len() <= n,
            k <= w@.len(),
            forall|t: int| 0 <= t < k ==> s@[i + t] == w@[t],
        decreases w@.len() - k,
    {
        if s[i + k] != w[k] {
            proof {
                assert(s@.subrange(i as int, i + w@.len())[k as int] != w@[k as int]);
            }
            return false;
        }
        k = k + 1;
    }
    proof {
        assert(s@.subrange(i as int, i + w@.len()) =~= w@);
    }
    true
}

/// What the matcher of `kind` finds at position `i`: see `step_at`.
pub fn step(kind: PatternKind, s: &[char], i: usize) -> (r: (usize, usize))
    requires
        i < s@.len(),
    ensures
        r.0 == step_at(kind, s@, i as int).0,
        r.1 == step_at(kind, s@, i as int).1,
        r.0 <= r.1,
        1 <= r.1,
        i + r.1 <= s@.len(),
{
    let n: usize = s.len();
    match kind {
        PatternKind::TrackingId => {
            let prefix: [char; 4] = ['C', 'R', 'Q', '-'];
            proof {
                assert(prefix@ =~= tracking_prefix());
            }
            if holds_at_exec(s, i, &prefix) {
                let d = run_length(s, i + 4, CharClass::Digit);
                if d > 0 {
                    return (4 + d, 4 + d);
                }
            }
            (0, 1)
        },
        PatternKind::Url => {
            let https: [char; 8] = ['h', 't', 't', 'p', 's', ':', '/', '/'];
            let http: [char; 7] = ['h', 't', 't', 'p', ':', '/', '/'];
            proof {
                assert(https@ =~= https_prefix());
                assert(http@ =~= http_prefix());
            }
            let p: usize = if holds_at_exec(s, i, &https) {
                8
            } else if holds_at_exec(s, i, &http) {
                7
            } else {
                0
            };
            if p == 0 {
                return (0, 1);
            }
            let r = run_length(s, i + p, CharClass::NonSpace);
            let b = run_back_length(s, i + p, i + p + r, CharClass::TrailingPunct);
            let t = r - b;
            if t > 0 {
                (p + t, p + r)
            } else {
                (0, 1)
            }
        },
        PatternKind::Term => {
            let r = run_length(s, i, CharClass::Word);
            if r == 0 {
                (0, 1)
            } else if ('a' <= s[i] && s[i] <= 'z') || ('A' <= s[i] && s[i] <= 'Z') || s[i] == '_' {
                (r, r)
            } else {
                (0, r)
            }
        },
    }
}

/// All matches of `kind` in `s`, left to right.
pub fn find_matches(kind: PatternKind, s: &[char]) -> (r: Vec<String>)
    ensures
        views(r@) == matches_of(kind, s@),
{
    let mut out: Vec<String> = Vec::new();
    let mut i: usize = 0;
    while i < s.len()
        invariant
            i <= s@.len(),
            views(out@) + matches_from(kind, s@, i as int) == matches_of(kind, s@),
        decreases s@.len() - i,
    {
        let (m, adv) = step(kind, s, i);
        if m > 0 {
            let found = string_from_chars(slice_subrange(s, i, i + m));
            proof {
                assert(views(out@.push(found)) =~= views(out@).push(found@));
                assert(matches_from(kind, s@, i as int) == seq![found@] + matches_from(
                    kind,
                    s@,
                    i + adv,
                ));
                assert(views(out@.push(found)) + matches_from(kind, s@, i + adv) =~= views(out@)
                    + matches_from(kind, s@, i as int));
            }
            out.push(found);
        }
        i = i + adv;
    }
    proof {
        assert(views(out@) =~= views(out@) + matches_from(kind, s@, i as int));
    }
    out
}

} // verus!
