//! Diffed lines and what a scan takes from them.
//!
//! Only added and context lines are scanned: a removed line is text that the
//! commit takes away. A line whose bytes are not valid UTF-8 is passed over.
use vstd::prelude::*;
use vstd::utf8::{decode_utf8, valid_utf8};

use crate::patterns::{find_matches, matches_of, views, PatternKind};
use crate::text::{chars_of, decode_line};

verus! {

/// Where a diffed line comes from.
#[derive(Clone, Copy, Debug, PartialEq, Eq, Structural)]
pub enum LineOrigin {
    Added,
    Context,
    Removed,
}

/// One line of a commit's diff against its first parent.
pub struct LineRecord {
    pub origin: LineOrigin,
    pub text: Vec<u8>,
}

/// Whether the matchers see `line`.
pub open spec fn is_forwarded(line: LineRecord) -> bool {
    line.origin != LineOrigin::Removed && valid_utf8(line.text@)
}

/// The matches of `kind` that `line` contributes.
pub open spec fn line_matches(kind: PatternKind, line: LineRecord) -> Seq<Seq<char>> {
    if is_forwarded(line) {
        matches_of(kind, decode_utf8(line.text@))
    } else {
        seq![]
    }
}

/// The matches of `kind` that `lines` contribute, line after line.
pub open spec fn lines_matches(kind: PatternKind, lines: Seq<LineRecord>) -> Seq<Seq<char>>
    decreases lines.len(),
{
    if lines.len() == 0 {
        seq![]
    } else {
        lines_matches(kind, lines.drop_last()) + line_matches(kind, lines.last())
    }
}

/// A value that no forwarded line holds is found in no line.
pub proof fn lemma_lines_matches_only_forwarded(
    kind: PatternKind,
    lines: Seq<LineRecord>,
    x: Seq<char>,
)
    requires
        forall|i: int|
            0 <= i < lines.len() && is_forwarded(#[trigger] lines[i]) ==> !matches_of(
                kind,
                decode_utf8(lines[i].text@),
            ).contains(x),
    ensures
        !lines_matches(kind, lines).contains(x),
    decreases lines.len(),
{
    if lines.len() > 0 {
        let init = lines.drop_last();
        assert forall|i: int|
            0 <= i < init.len() && is_forwarded(#[trigger] init[i]) implies !matches_of(
            kind,
            decode_utf8(init[i].text@),
        ).contains(x) by {
            assert(init[i] == lines[i]);
        }
        lemma_lines_matches_only_forwarded(kind, init, x);
        let last = lines[lines.len() - 1];
        assert(!line_matches(kind, last).contains(x));
        let all = lines_matches(kind, init) + line_matches(kind, last);
        if all.contains(x) {
            let k = choose|k: int| 0 <= k < all.len() && all[k] == x;
            if k < lines_matches(kind, init).len() {
                assert(lines_matches(kind, init)[k] == x);
            } else {
                assert(line_matches(kind, last)[k - lines_matches(kind, init).len()] == x);
            }
        }
    }
}

/// The candidates that one run of a scan has collected so far, not yet merged
/// into the checkpoint.
pub struct Findings {
    pub crq_links: Vec<String>,
    pub urls: Vec<String>,
    pub terms: Vec<String>,
}

impl Findings {
    /// Whether these are exactly the findings of `lines`.
    pub open spec fn found_in(&self, lines: Seq<LineRecord>) -> bool {
        &&& views(self.crq_links@) == lines_matches(PatternKind::TrackingId, lines)
        &&& views(self.urls@) == lines_matches(PatternKind::Url, lines)
        &&& views(self.terms@) == lines_matches(PatternKind::Term, lines)
    }

    pub fn new() -> (r: Findings)
        ensures
            r.found_in(seq![]),
    {
        let r = Findings { crq_links: Vec::new(), urls: Vec::new(), terms: Vec::new() };
        proof {
            assert(views(r.crq_links@) =~= seq![]);
            assert(views(r.urls@) =~= seq![]);
            assert(views(r.terms@) =~= seq![]);
        }
        r
    }

    /// Adds what `line` holds.
    pub fn scan_line(&mut self, line: &LineRecord)
        ensures
            forall|ls: Seq<LineRecord>| #[trigger]
                old(self).found_in(ls) ==> final(self).found_in(ls.push(*line)),
    {
        let text = if line.origin == LineOrigin::Removed {
            None
        } else {
            decode_line(line.text.as_slice())
        };
        match text {
            None => {},
            Some(text) => {
                let cs = chars_of(text);
                let mut a = find_matches(PatternKind::TrackingId, cs.as_slice());
                let mut b = find_matches(PatternKind::Url, cs.as_slice());
                let mut c = find_matches(PatternKind::Term, cs.as_slice());
                let ghost (a0, b0, c0) = (a@, b@, c@);
                let ghost (x0, y0, z0) = (self.crq_links@, self.urls@, self.terms@);
                self.crq_links.append(&mut a);
                self.urls.append(&mut b);
                self.terms.append(&mut c);
                proof {
                    assert(views(x0 + a0) =~= views(x0) + views(a0));
                    assert(views(y0 + b0) =~= views(y0) + views(b0));
                    assert(views(z0 + c0) =~= views(z0) + views(c0));
                }
            },
        }
        proof {
            assert forall|ls: Seq<LineRecord>| #[trigger]
                old(self).found_in(ls) implies self.found_in(ls.push(*line)) by {
                assert(ls.push(*line).drop_last() =~= ls);
            }
        }
    }

    /// Adds what each of `lines` holds, in order.
    pub fn scan_lines(&mut self, lines: &Vec<LineRecord>)
        ensures
            forall|ls: Seq<LineRecord>| #[trigger]
                old(self).found_in(ls) ==> final(self).found_in(ls + lines@),
    {
        let ghost start = *self;
        let mut i: usize = 0;
        while i < lines.len()
            invariant
                i <= lines@.len(),
                forall|ls: Seq<LineRecord>| #[trigger]
                    start.found_in(ls) ==> self.found_in(ls + lines@.subrange(0, i as int)),
            decreases lines@.len() - i,
        {
            self.scan_line(&lines[i]);
            proof {
                assert forall|ls: Seq<LineRecord>| #[trigger]
                    start.found_in(ls) implies self.found_in(ls + lines@.subrange(0, i + 1)) by {
                    assert(ls + lines@.subrange(0, i + 1) =~= (ls + lines@.subrange(0, i as int)).push(
                        lines@[i as int],
                    ));
                }
            }
            i = i + 1;
        }
        proof {
            assert(lines@.subrange(0, i as int) =~= lines@);
        }
    }
}

} // verus!
