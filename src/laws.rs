//! What holds of every scan, stated over the state machine and the
//! checkpoint model.
use vstd::prelude::*;
use vstd::utf8::{decode_utf8, valid_utf8};

use crate::checkpoint::{
    lemma_merged_contains,
    lemma_merged_nothing_new,
    lemma_merged_no_duplicates,
    merged,
    ScanCache,
    ScanCacheView,
};
use crate::extract::{
    is_forwarded,
    line_matches,
    lemma_lines_matches_only_forwarded,
    lines_matches,
    LineOrigin,
    LineRecord,
};
use crate::patterns::{matches_of, PatternKind};
use crate::scan::{checkpoint_after, excluded_commit, ScanAction, ScanEvent, ScanState};

verus! {

/// The result set of `kind` in a checkpoint.
pub open spec fn results(c: ScanCacheView, kind: PatternKind) -> Seq<Seq<char>> {
    match kind {
        PatternKind::TrackingId => c.found_crq_links,
        PatternKind::Url => c.found_urls,
        PatternKind::Term => c.found_terms,
    }
}

proof fn lemma_results_after(before: ScanCacheView, head: Seq<char>, lines: Seq<LineRecord>, kind: PatternKind)
    ensures
        results(checkpoint_after(before, head, lines), kind) == merged(
            results(before, kind),
            lines_matches(kind, lines),
        ),
{
}

/// A run that scans nothing on a checkpoint already at the head changes
/// nothing; nor does scanning the same lines a second time.
pub proof fn lemma_rescan_changes_nothing(before: ScanCacheView, head: Seq<char>, lines: Seq<LineRecord>)
    ensures
        ({
            let once = checkpoint_after(before, head, lines);
            &&& checkpoint_after(once, head, Seq::empty()) == once
            &&& checkpoint_after(once, head, lines) == once
        }),
{
    let once = checkpoint_after(before, head, lines);
    assert(lines_matches(PatternKind::TrackingId, Seq::<LineRecord>::empty()) =~= seq![]);
    assert(lines_matches(PatternKind::Url, Seq::<LineRecord>::empty()) =~= seq![]);
    assert(lines_matches(PatternKind::Term, Seq::<LineRecord>::empty()) =~= seq![]);
    assert(checkpoint_after(once, head, Seq::empty()) == once);
    assert forall|kind: PatternKind|
        merged(results(once, kind), lines_matches(kind, lines)) == results(once, kind) by {
        lemma_results_after(before, head, lines, kind);
        let found = lines_matches(kind, lines);
        assert forall|i: int| 0 <= i < found.len() implies results(once, kind).contains(
            #[trigger] found[i],
        ) by {
            lemma_merged_contains(results(before, kind), found, found[i]);
        }
        lemma_merged_nothing_new(results(once, kind), found);
    }
    lemma_results_after(once, head, lines, PatternKind::TrackingId);
    lemma_results_after(once, head, lines, PatternKind::Url);
    lemma_results_after(once, head, lines, PatternKind::Term);
}

/// On the machine: a run that reaches the end of its walk without a line
/// scanned, from a checkpoint already at the head, saves that checkpoint
/// unchanged.
pub proof fn lemma_run_without_new_commits(
    cache: ScanCache,
    head: String,
    found: crate::extract::Findings,
    t: ScanState,
    a: ScanAction,
)
    requires
        cache@.last_scanned_commit == Some(head@),
        (ScanState::Traversing { cache, head, found, lines: Ghost(Seq::empty()) }).transition(
            ScanEvent::TraversalFinished,
            t,
            a,
        ),
    ensures
        a matches ScanAction::SaveCheckpoint { cache: c } && c@ == cache@,
{
    assert(lines_matches(PatternKind::TrackingId, Seq::<LineRecord>::empty()) =~= seq![]);
    assert(lines_matches(PatternKind::Url, Seq::<LineRecord>::empty()) =~= seq![]);
    assert(lines_matches(PatternKind::Term, Seq::<LineRecord>::empty()) =~= seq![]);
}

/// Each value matched in a scanned line stands exactly once in its result
/// set, however many lines and commits it occurs in.
pub proof fn lemma_found_exactly_once(
    before: ScanCacheView,
    head: Seq<char>,
    lines: Seq<LineRecord>,
    kind: PatternKind,
    x: Seq<char>,
)
    requires
        before.wf(),
        lines_matches(kind, lines).contains(x),
    ensures
        ({
            let r = results(checkpoint_after(before, head, lines), kind);
            &&& exists|i: int| 0 <= i < r.len() && r[i] == x
            &&& forall|i: int, j: int| 0 <= i < r.len() && 0 <= j < r.len() && r[i] == x && r[j]
                == x ==> i == j
        }),
{
    lemma_results_after(before, head, lines, kind);
    let r = results(checkpoint_after(before, head, lines), kind);
    lemma_merged_contains(results(before, kind), lines_matches(kind, lines), x);
    lemma_merged_no_duplicates(results(before, kind), lines_matches(kind, lines));
}

/// After a successful run the checkpoint names the head commit that the run
/// resolved at its start.
pub proof fn lemma_checkpoint_at_head(
    cache: ScanCache,
    head: String,
    found: crate::extract::Findings,
    lines: Ghost<Seq<LineRecord>>,
    t: ScanState,
    a: ScanAction,
)
    requires
        (ScanState::Traversing { cache, head, found, lines }).transition(
            ScanEvent::TraversalFinished,
            t,
            a,
        ),
    ensures
        a matches ScanAction::SaveCheckpoint { cache: c } && c@.last_scanned_commit == Some(
            head@,
        ),
        t matches ScanState::Persisting { cache: c, .. } && c@.last_scanned_commit == Some(
            head@,
        ),
{
}

/// A commit without a parent is diffed against the empty tree, and each of
/// its lines, all added, is scanned.
pub proof fn lemma_root_commit_fully_scanned(
    s: ScanState,
    commit: git2::Oid,
    t: ScanState,
    a: ScanAction,
    line: LineRecord,
    kind: PatternKind,
)
    requires
        s is Traversing,
        s.transition(ScanEvent::CommitFound { commit, first_parent: None }, t, a),
        line.origin == LineOrigin::Added,
        valid_utf8(line.text@),
    ensures
        a matches ScanAction::DiffCommit { commit: c, base } && c == commit && base is None,
        line_matches(kind, line) == matches_of(kind, decode_utf8(line.text@)),
{
}

/// A value that occurs only in removed lines never enters a result set.
pub proof fn lemma_removed_lines_never_found(
    before: ScanCacheView,
    head: Seq<char>,
    lines: Seq<LineRecord>,
    kind: PatternKind,
    x: Seq<char>,
)
    requires
        !results(before, kind).contains(x),
        forall|i: int|
            0 <= i < lines.len() && lines[i].origin != LineOrigin::Removed && valid_utf8(
                lines[i].text@,
            ) ==> !(#[trigger] matches_of(kind, decode_utf8(lines[i].text@))).contains(x),
    ensures
        !results(checkpoint_after(before, head, lines), kind).contains(x),
{
    assert forall|i: int|
        0 <= i < lines.len() && is_forwarded(#[trigger] lines[i]) implies !matches_of(
        kind,
        decode_utf8(lines[i].text@),
    ).contains(x) by {}
    lemma_lines_matches_only_forwarded(kind, lines, x);
    lemma_results_after(before, head, lines, kind);
    lemma_merged_contains(results(before, kind), lines_matches(kind, lines), x);
}

/// A missing checkpoint file leads to the same state as an empty checkpoint.
pub proof fn lemma_missing_checkpoint_is_empty(
    empty: ScanCache,
    t1: ScanState,
    a1: ScanAction,
    t2: ScanState,
    a2: ScanAction,
)
    requires
        empty@.is_empty(),
        ScanState::Loading.transition(ScanEvent::CheckpointLoaded { cache: None }, t1, a1),
        ScanState::Loading.transition(ScanEvent::CheckpointLoaded { cache: Some(empty) }, t2, a2),
    ensures
        t1 matches ScanState::Resolving { cache: c1 } && t2 matches ScanState::Resolving {
            cache: c2,
        } && c1@ == c2@,
        a1 is ResolveHead && a2 is ResolveHead,
{
    assert(empty@.found_crq_links =~= seq![]);
    assert(empty@.found_urls =~= seq![]);
    assert(empty@.found_terms =~= seq![]);
    if let ScanState::Resolving { cache: c1 } = t1 {
        assert(c1@.found_crq_links =~= seq![]);
        assert(c1@.found_urls =~= seq![]);
        assert(c1@.found_terms =~= seq![]);
    }
}

/// From an empty checkpoint the walk leaves no commit out: it covers the
/// history down to the root.
pub proof fn lemma_empty_checkpoint_walks_everything(
    cache: ScanCache,
    head: String,
    t: ScanState,
    a: ScanAction,
)
    requires
        cache@.is_empty(),
        (ScanState::Resolving { cache }).transition(ScanEvent::HeadResolved { head }, t, a),
    ensures
        a matches ScanAction::Traverse { exclude } && exclude is None,
{
}

} // verus!
