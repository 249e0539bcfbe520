//! Reading a template call such as `{{Name|key=value|positional}}` out of text.
//!
//! The first call in the text counts. Its name runs from after `{{` up to the
//! last `}}` that still leaves it free of `|`; with a `|` after the name, the
//! parameters run up to the last `}}` on that line. Parameters are split on
//! `|` and kept as written.
use vstd::prelude::*;
use vstd::slice::slice_subrange;

use crate::data_structures::TemplateInvocation;
use crate::patterns::{holds_at, views};
use crate::text::{chars_of, string_from_chars};

verus! {

pub open spec fn open_braces() -> Seq<char> {
    seq!['{', '{']
}

pub open spec fn close_braces() -> Seq<char> {
    seq!['}', '}']
}

/// How many characters other than `stop` follow one another from `i`.
pub open spec fn run_without(s: Seq<char>, i: int, stop: char) -> nat
    decreases s.len() - i,
{
    if 0 <= i < s.len() && s[i] != stop {
        1 + run_without(s, i + 1, stop)
    } else {
        0
    }
}

/// The largest `j` in `0..=k` such that `}}` stands at `base + j`, or -1.
pub open spec fn last_close(s: Seq<char>, base: int, k: int) -> int
    decreases k + 1,
{
    if k < 0 {
        -1
    } else if holds_at(s, base + k, close_braces()) {
        k
    } else {
        last_close(s, base, k - 1)
    }
}

/// A call that starts at `p`: the length of its name, and that of its
/// parameter text when it has a `|` part.
pub open spec fn call_at(s: Seq<char>, p: int) -> Option<(int, Option<int>)> {
    let r = run_without(s, p + 2, '|') as int;
    let q = p + 3 + r;
    let k = last_close(s, q, run_without(s, q, '\n') as int);
    let n = last_close(s, p + 2, r);
    if !holds_at(s, p, open_braces()) || r == 0 {
        None
    } else if p + 2 + r < s.len() && s[p + 2 + r] == '|' && k >= 0 {
        Some((r, Some(k)))
    } else if n >= 1 {
        Some((n, None))
    } else {
        None
    }
}

/// The first call at or after `p`: where it starts, and what `call_at` says.
pub open spec fn first_call(s: Seq<char>, p: int) -> Option<(int, int, Option<int>)>
    decreases s.len() - p,
{
    if p < 0 || p >= s.len() {
        None
    } else {
        match call_at(s, p) {
            Some((n, k)) => Some((p, n, k)),
            None => first_call(s, p + 1),
        }
    }
}

/// `t` cut at each `|`.
pub open spec fn split_pipes(t: Seq<char>) -> Seq<Seq<char>>
    decreases t.len(),
{
    let i = run_without(t, 0, '|') as int;
    if i >= t.len() {
        seq![t]
    } else {
        seq![t.subrange(0, i)] + split_pipes(t.subrange(i + 1, t.len() as int))
    }
}

/// The parameters of a call whose parameter text is `t`.
pub open spec fn params_of(t: Seq<char>) -> Seq<Seq<char>> {
    if t.len() == 0 {
        seq![]
    } else {
        split_pipes(t)
    }
}

/// What a call found in `s` reads as: its name and its parameters.
pub open spec fn parsed(s: Seq<char>) -> Option<(Seq<char>, Seq<Seq<char>>)> {
    match first_call(s, 0) {
        None => None,
        Some((p, n, k)) => Some(
            (
                s.subrange(p + 2, p + 2 + n),
                match k {
                    None => seq![],
                    Some(k) => params_of(s.subrange(p + 3 + n, p + 3 + n + k)),
                },
            ),
        ),
    }
}

proof fn lemma_run_without_bound(s: Seq<char>, i: int, stop: char)
    requires
        0 <= i <= s.len(),
    ensures
        i + run_without(s, i, stop) <= s.len(),
        forall|j: int| i <= j < i + run_without(s, i, stop) ==> s[j] != stop,
        i + run_without(s, i, stop) < s.len() ==> s[i + run_without(s, i, stop)] == stop,
    decreases s.len() - i,
{
    if i < s.len() && s[i] != stop {
        lemma_run_without_bound(s, i + 1, stop);
    }
}

proof fn lemma_last_close_bound(s: Seq<char>, base: int, k: int)
    ensures
        -1 <= last_close(s, base, k) <= if k < 0 {
            -1
        } else {
            k
        },
        last_close(s, base, k) >= 0 ==> holds_at(s, base + last_close(s, base, k), close_braces()),
    decreases k + 1,
{
    if k >= 0 && !holds_at(s, base + k, close_braces()) {
        lemma_last_close_bound(s, base, k - 1);
    }
}

fn run_without_exec(s: &[char], i: usize, stop: char) -> (r: usize)
    requires
        i <= s@.len(),
    ensures
        r == run_without(s@, i as int, stop),
        i + r <= s@.len(),
{
    let mut j: usize = i;
    while j < s.len() && s[j] != stop
        invariant
            i <= j <= s@.len(),
            run_without(s@, i as int, stop) == (j - i) + run_without(s@, j as int, stop),
        decreases s@.len() - j,
    {
        j = j + 1;
    }
    proof {
        lemma_run_without_bound(s@, i as int, stop);
    }
    j - i
}

fn holds_pair_at(s: &[char], i: usize, c: char) -> (r: bool)
    ensures
        r == holds_at(s@, i as int, seq![c, c]),
{
    let n: usize = s.len();
    if i < n && n - i >= 2 && s[i] == c && s[i + 1] == c {
        proof {
            assert(s@.subrange(i as int, i + 2) =~= seq![c, c]);
        }
        true
    } else {
        proof {
            if holds_at(s@, i as int, seq![c, c]) {
                assert(s@.subrange(i as int, i + 2)[0] == c);
                assert(s@.subrange(i as int, i + 2)[1] == c);
            }
        }
        false
    }
}

/// The largest `j` in `0..=k` with `}}` at `base + j`, if any.
fn last_close_exec(s: &[char], base: usize, k: usize) -> (r: Option<usize>)
    requires
        base + k <= s@.len(),
    ensures
        match r {
            Some(j) => j as int == last_close(s@, base as int, k as int),
            None => last_close(s@, base as int, k as int) == -1,
        },
{
    let len: usize = s.len();
    let mut j: usize = k;
    loop
        invariant
            j <= k,
            len == s@.len(),
            base + k <= len,
            last_close(s@, base as int, k as int) == last_close(s@, base as int, j as int),
        decreases j,
    {
        proof {
            assert(close_braces() =~= seq!['}', '}']);
        }
        if holds_pair_at(s, base + j, '}') {
            return Some(j);
        }
        if j == 0 {
            proof {
                assert(last_close(s@, base as int, -1) == -1);
            }
            return None;
        }
        j = j - 1;
    }
}

/// `t` cut at each `|`.
fn split_pipes_exec(t: &[char]) -> (r: Vec<String>)
    ensures
        views(r@) == split_pipes(t@),
{
    let mut out: Vec<String> = Vec::new();
    let mut start: usize = 0;
    proof {
        assert(t@.subrange(0, t@.len() as int) =~= t@);
        assert(views(out@) + split_pipes(t@) =~= split_pipes(t@));
    }
    loop
        invariant
            start <= t@.len(),
            views(out@) + split_pipes(t@.subrange(start as int, t@.len() as int)) == split_pipes(
                t@,
            ),
        decreases t@.len() - start,
    {
        let rest = slice_subrange(t, start, t.len());
        let i = run_without_exec(rest, 0, '|');
        let piece = string_from_chars(slice_subrange(rest, 0, i));
        let ghost prev = out@;
        out.push(piece);
        proof {
            assert(views(out@) =~= views(prev).push(piece@));
        }
        if i >= rest.len() {
            proof {
                assert(rest@.subrange(0, i as int) =~= rest@);
                assert(views(out@) =~= views(prev) + split_pipes(rest@));
            }
            return out;
        }
        proof {
            assert(rest@.subrange(i + 1, rest@.len() as int) =~= t@.subrange(
                start + i + 1,
                t@.len() as int,
            ));
            assert(views(out@) + split_pipes(t@.subrange(start + i + 1, t@.len() as int))
                =~= views(prev) + split_pipes(rest@));
        }
        start = start + i + 1;
    }
}

/// The call at `p`, as `call_at` describes it.
fn call_at_exec(s: &[char], p: usize) -> (r: Option<(usize, Option<usize>)>)
    requires
        p < s@.len(),
    ensures
        match r {
            None => call_at(s@, p as int) is None,
            Some((n, None)) => call_at(s@, p as int) == Some((n as int, None::<int>)),
            Some((n, Some(k))) => call_at(s@, p as int) == Some((n as int, Some(k as int))),
        },
{
    proof {
        assert(open_braces() =~= seq!['{', '{']);
    }
    let len: usize = s.len();
    if !holds_pair_at(s, p, '{') {
        return None;
    }
    let r = run_without_exec(s, p + 2, '|');
    if r == 0 {
        return None;
    }
    proof {
        lemma_run_without_bound(s@, p + 2, '|');
    }
    if p + 2 + r < len && s[p + 2 + r] == '|' {
        let q = p + 3 + r;
        let l = run_without_exec(s, q, '\n');
        match last_close_exec(s, q, l) {
            Some(k) => {
                return Some((r, Some(k)));
            },
            None => {},
        }
    }
    match last_close_exec(s, p + 2, r) {
        Some(n) => {
            if n >= 1 {
                Some((n, None))
            } else {
                None
            }
        },
        None => None,
    }
}

/// Reads the first template call in `input`; `None` when there is none.
pub fn parse_template_invocation(input: &str) -> (r: Option<TemplateInvocation>)
    ensures
        match parsed(input@) {
            None => r is None,
            Some((name, params)) => r matches Some(t) && t.name@ == name && views(t.params@)
                == params,
        },
{
    let s = chars_of(input);
    let cs = s.as_slice();
    let mut p: usize = 0;
    while p < cs.len()
        invariant
            p <= cs@.len(),
            cs@ == input@,
            first_call(cs@, 0) == first_call(cs@, p as int),
        decreases cs@.len() - p,
    {
        match call_at_exec(cs, p) {
            None => {
                p = p + 1;
            },
            Some((n, k)) => {
                proof {
                    lemma_run_without_bound(cs@, p + 2, '|');
                    lemma_last_close_bound(cs@, p + 2, run_without(cs@, p + 2, '|') as int);
                    let q = p + 3 + run_without(cs@, p + 2, '|');
                    if q <= cs@.len() {
                        lemma_run_without_bound(cs@, q, '\n');
                    }
                    lemma_last_close_bound(cs@, q, run_without(cs@, q, '\n') as int);
                }
                let name = string_from_chars(slice_subrange(cs, p + 2, p + 2 + n));
                let params = match k {
                    None => Vec::new(),
                    Some(k) => {
                        if k == 0 {
                            Vec::new()
                        } else {
                            split_pipes_exec(slice_subrange(cs, p + 3 + n, p + 3 + n + k))
                        }
                    },
                };
                proof {
                    if k is None || k == Some(0usize) {
                        assert(views(params@) =~= seq![]);
                    }
                }
                return Some(TemplateInvocation { name, params });
            },
        }
    }
    None
}

} // verus!
