//! The decisions of one incremental scan, as a state machine.
//!
//! A run goes `Loading → Resolving → Traversing → Persisting → Done`, or to
//! `Aborted` on the first failure. The caller performs each action that
//! `step` hands out (reading the checkpoint, walking the history, diffing one
//! commit, writing the checkpoint) and reports the outcome as the next event.
//! Nothing found in a run reaches the checkpoint unless the whole run
//! succeeds.
use vstd::prelude::*;

use crate::checkpoint::{merge_into, merged, ScanCache, ScanCacheView};
use crate::commit_id::{is_oid_text, parse_oid};
use crate::extract::{lines_matches, Findings, LineRecord};
use crate::patterns::PatternKind;

verus! {

/// The failures that end a run.
#[derive(Clone, Copy, Debug, PartialEq, Eq, Structural)]
pub enum ScanError {
    /// The path is not the root of a repository.
    RepositoryOpen,
    /// The repository has no commit.
    NoHead,
    /// The checkpoint file exists but does not hold a checkpoint.
    CorruptCheckpoint,
    /// Walking the history or diffing a commit failed.
    DiffComputation,
    /// The new checkpoint could not be written.
    CheckpointWrite,
}

/// The counts that a successful run reports.
#[derive(Clone, Copy, Debug, PartialEq, Eq, Structural)]
pub struct ScanSummary {
    pub total_crq_links: usize,
    pub total_urls: usize,
    pub total_terms: usize,
    pub new_crq_links: usize,
    pub new_urls: usize,
    pub new_terms: usize,
}

pub enum ScanState {
    Loading,
    Resolving { cache: ScanCache },
    Traversing {
        cache: ScanCache,
        /// The hex id of the head commit that this run scans up to.
        head: String,
        found: Findings,
        /// Every line handed in so far in this run.
        lines: Ghost<Seq<LineRecord>>,
    },
    Persisting { cache: ScanCache, summary: ScanSummary },
    Done { cache: ScanCache, summary: ScanSummary },
    Aborted { error: ScanError },
}

/// What the caller reports back.
pub enum ScanEvent {
    /// The checkpoint was read; `None` when there is no checkpoint file.
    CheckpointLoaded { cache: Option<ScanCache> },
    /// The checkpoint file exists but could not be parsed.
    CheckpointCorrupt,
    /// The head commit, as hex text.
    HeadResolved { head: String },
    HeadMissing,
    /// The history walk yielded `commit`, whose first parent is `first_parent`.
    CommitFound { commit: git2::Oid, first_parent: Option<git2::Oid> },
    /// The lines of the diff that was asked for last.
    CommitDiffed { lines: Vec<LineRecord> },
    TraversalFinished,
    TraversalFailed,
    CheckpointSaved,
    CheckpointSaveFailed,
}

/// What the caller is to do next.
pub enum ScanAction {
    LoadCheckpoint,
    ResolveHead,
    /// Walk from the head commit over every commit that is not `exclude`
    /// or one of its ancestors; with `None`, over the whole history.
    Traverse { exclude: Option<git2::Oid> },
    /// Diff the tree of `commit` against that of `base`, or against the
    /// empty tree when `base` is `None`.
    DiffCommit { commit: git2::Oid, base: Option<git2::Oid> },
    /// Report the next commit of the walk, or its end.
    NextCommit,
    /// Write `cache` over the previous checkpoint, as a whole.
    SaveCheckpoint { cache: ScanCache },
    Report { summary: ScanSummary },
    Abort { error: ScanError },
}

/// The checkpoint after a successful run from `before` up to commit `head`,
/// in which `lines` were scanned.
pub open spec fn checkpoint_after(before: ScanCacheView, head: Seq<char>, lines: Seq<LineRecord>) -> ScanCacheView {
    ScanCacheView {
        last_scanned_commit: Some(head),
        found_crq_links: merged(
            before.found_crq_links,
            lines_matches(PatternKind::TrackingId, lines),
        ),
        found_urls: merged(before.found_urls, lines_matches(PatternKind::Url, lines)),
        found_terms: merged(before.found_terms, lines_matches(PatternKind::Term, lines)),
    }
}

/// The commit that a run starting from `cache` leaves out with its ancestors.
pub open spec fn excluded_commit(cache: ScanCacheView) -> Option<Seq<char>> {
    match cache.last_scanned_commit {
        Some(s) => if is_oid_text(s) {
            Some(s)
        } else {
            None
        },
        None => None,
    }
}

pub open spec fn summary_of(before: ScanCacheView, after: ScanCacheView) -> ScanSummary {
    ScanSummary {
        total_crq_links: after.found_crq_links.len() as usize,
        total_urls: after.found_urls.len() as usize,
        total_terms: after.found_terms.len() as usize,
        new_crq_links: (after.found_crq_links.len() - before.found_crq_links.len()) as usize,
        new_urls: (after.found_urls.len() - before.found_urls.len()) as usize,
        new_terms: (after.found_terms.len() - before.found_terms.len()) as usize,
    }
}

pub open spec fn aborts_with(t: ScanState, a: ScanAction, e: ScanError) -> bool {
    &&& t matches ScanState::Aborted { error } && error == e
    &&& a matches ScanAction::Abort { error } && error == e
}

impl ScanState {
    /// The invariant of each state.
    pub open spec fn wf(&self) -> bool {
        match self {
            ScanState::Loading => true,
            ScanState::Resolving { cache } => cache@.wf(),
            ScanState::Traversing { cache, found, lines, .. } => cache@.wf() && found.found_in(
                lines@,
            ),
            ScanState::Persisting { cache, .. } => cache@.wf(),
            ScanState::Done { cache, .. } => cache@.wf(),
            ScanState::Aborted { .. } => true,
        }
    }

    /// Whether `e` is an outcome that this state waits for.
    pub open spec fn spec_accepts(&self, e: ScanEvent) -> bool {
        match self {
            ScanState::Loading => e is CheckpointLoaded || e is CheckpointCorrupt,
            ScanState::Resolving { .. } => e is HeadResolved || e is HeadMissing,
            ScanState::Traversing { .. } => e is CommitFound || e is CommitDiffed
                || e is TraversalFinished || e is TraversalFailed,
            ScanState::Persisting { .. } => e is CheckpointSaved || e is CheckpointSaveFailed,
            ScanState::Done { .. } => false,
            ScanState::Aborted { .. } => false,
        }
    }

    /// The state that follows `self` on event `e`, with the action to take.
    pub open spec fn transition(self, e: ScanEvent, t: ScanState, a: ScanAction) -> bool {
        match self {
            ScanState::Loading => match e {
                ScanEvent::CheckpointLoaded { cache } => match cache {
                    None => t matches ScanState::Resolving { cache } && cache@.is_empty()
                        && a is ResolveHead,
                    Some(c) => if c@.wf() {
                        t matches ScanState::Resolving { cache } && cache@ == c@
                            && a is ResolveHead
                    } else {
                        aborts_with(t, a, ScanError::CorruptCheckpoint)
                    },
                },
                _ => aborts_with(t, a, ScanError::CorruptCheckpoint),
            },
            ScanState::Resolving { cache } => match e {
                ScanEvent::HeadResolved { head } => {
                    &&& t matches ScanState::Traversing { cache: c, head: h, lines, .. }
                        && c@ == cache@ && h@ == head@ && lines@ == Seq::<LineRecord>::empty()
                    &&& a matches ScanAction::Traverse { exclude } && (exclude is Some
                        <==> excluded_commit(cache@) is Some)
                },
                _ => aborts_with(t, a, ScanError::NoHead),
            },
            ScanState::Traversing { cache, head, lines, .. } => match e {
                ScanEvent::CommitFound { commit, first_parent } => {
                    &&& t == self
                    &&& a == ScanAction::DiffCommit { commit, base: first_parent }
                },
                ScanEvent::CommitDiffed { lines: more } => {
                    &&& t matches ScanState::Traversing { cache: c, head: h, lines: l, .. }
                        && c == cache && h == head && l@ == lines@ + more@
                    &&& a is NextCommit
                },
                ScanEvent::TraversalFinished => {
                    &&& t matches ScanState::Persisting { cache: c, summary } && c@
                        == checkpoint_after(cache@, head@, lines@) && summary == summary_of(
                        cache@,
                        c@,
                    )
                    &&& a matches ScanAction::SaveCheckpoint { cache: c } && c@
                        == checkpoint_after(cache@, head@, lines@)
                },
                _ => aborts_with(t, a, ScanError::DiffComputation),
            },
            ScanState::Persisting { cache, summary } => match e {
                ScanEvent::CheckpointSaved => {
                    &&& t matches ScanState::Done { cache: c, summary: s } && c == cache && s
                        == summary
                    &&& a == ScanAction::Report { summary }
                },
                _ => aborts_with(t, a, ScanError::CheckpointWrite),
            },
            _ => false,
        }
    }

    /// The first state of a run, and its first action.
    pub fn start() -> (r: (ScanState, ScanAction))
        ensures
            r.0 is Loading,
            r.1 is LoadCheckpoint,
            r.0.wf(),
    {
        (ScanState::Loading, ScanAction::LoadCheckpoint)
    }

    /// Whether `e` is an outcome that this state waits for.
    pub fn accepts(&self, e: &ScanEvent) -> (r: bool)
        ensures
            r == self.spec_accepts(*e),
    {
        match self {
            ScanState::Loading => matches!(e, ScanEvent::CheckpointLoaded { .. } | ScanEvent::CheckpointCorrupt),
            ScanState::Resolving { .. } => matches!(e, ScanEvent::HeadResolved { .. } | ScanEvent::HeadMissing),
            ScanState::Traversing { .. } => matches!(
                e,
                ScanEvent::CommitFound { .. } | ScanEvent::CommitDiffed { .. }
                    | ScanEvent::TraversalFinished | ScanEvent::TraversalFailed
            ),
            ScanState::Persisting { .. } => matches!(e, ScanEvent::CheckpointSaved | ScanEvent::CheckpointSaveFailed),
            ScanState::Done { .. } => false,
            ScanState::Aborted { .. } => false,
        }
    }

    /// Whether the run has ended, well or not.
    pub fn is_finished(&self) -> (r: bool)
        ensures
            r == (self is Done || self is Aborted),
    {
        matches!(self, ScanState::Done { .. } | ScanState::Aborted { .. })
    }

    /// Moves the run on by one event.
    pub fn step(self, e: ScanEvent) -> (r: (ScanState, ScanAction))
        requires
            self.wf(),
            self.spec_accepts(e),
        ensures
            self.transition(e, r.0, r.1),
            r.0.wf(),
    {
        match self {
            ScanState::Loading => match e {
                ScanEvent::CheckpointLoaded { cache } => {
                    let c = match cache {
                        Some(c) => c,
                        None => ScanCache::empty(),
                    };
                    if c.is_well_formed() {
                        (ScanState::Resolving { cache: c }, ScanAction::ResolveHead)
                    } else {
                        abort(ScanError::CorruptCheckpoint)
                    }
                },
                _ => abort(ScanError::CorruptCheckpoint),
            },
            ScanState::Resolving { cache } => match e {
                ScanEvent::HeadResolved { head } => {
                    let exclude = match &cache.last_scanned_commit {
                        Some(s) => parse_oid(s.as_str()),
                        None => None,
                    };
                    let state = ScanState::Traversing {
                        cache,
                        head,
                        found: Findings::new(),
                        lines: Ghost(Seq::empty()),
                    };
                    (state, ScanAction::Traverse { exclude })
                },
                _ => abort(ScanError::NoHead),
            },
            ScanState::Traversing { cache, head, found, lines } => match e {
                ScanEvent::CommitFound { commit, first_parent } => {
                    let state = ScanState::Traversing { cache, head, found, lines };
                    (state, ScanAction::DiffCommit { commit, base: first_parent })
                },
                ScanEvent::CommitDiffed { lines: more } => {
                    let mut found = found;
                    found.scan_lines(&more);
                    let state = ScanState::Traversing {
                        cache,
                        head,
                        found,
                        lines: Ghost(lines@ + more@),
                    };
                    (state, ScanAction::NextCommit)
                },
                ScanEvent::TraversalFinished => finish_traversal(cache, head, found, lines),
                _ => abort(ScanError::DiffComputation),
            },
            ScanState::Persisting { cache, summary } => match e {
                ScanEvent::CheckpointSaved => (
                    ScanState::Done { cache, summary },
                    ScanAction::Report { summary },
                ),
                _ => abort(ScanError::CheckpointWrite),
            },
            _ => abort(ScanError::DiffComputation),
        }
    }
}

fn abort(error: ScanError) -> (r: (ScanState, ScanAction))
    ensures
        aborts_with(r.0, r.1, error),
        r.0.wf(),
{
    (ScanState::Aborted { error }, ScanAction::Abort { error })
}

/// The merge at the end of a traversal: the run's findings join the
/// checkpoint, which moves on to `head`.
fn finish_traversal(
    cache: ScanCache,
    head: String,
    found: Findings,
    lines: Ghost<Seq<LineRecord>>,
) -> (r: (ScanState, ScanAction))
    requires
        cache@.wf(),
        found.found_in(lines@),
    ensures
        r.0 matches ScanState::Persisting { cache: c, summary } && c@ == checkpoint_after(
            cache@,
            head@,
            lines@,
        ) && summary == summary_of(cache@, c@),
        r.1 matches ScanAction::SaveCheckpoint { cache: c } && c@ == checkpoint_after(
            cache@,
            head@,
            lines@,
        ),
        r.0.wf(),
{
    let ghost before = cache@;
    let mut c = cache;
    let n_crq = c.found_crq_links.len();
    let n_urls = c.found_urls.len();
    let n_terms = c.found_terms.len();
    merge_into(&mut c.found_crq_links, &found.crq_links);
    merge_into(&mut c.found_urls, &found.urls);
    merge_into(&mut c.found_terms, &found.terms);
    c.last_scanned_commit = Some(head);
    proof {
        lemma_checkpoint_after_wf(before, head@, lines@);
        crate::checkpoint::lemma_merged_extends(
            before.found_crq_links,
            lines_matches(PatternKind::TrackingId, lines@),
        );
        crate::checkpoint::lemma_merged_extends(
            before.found_urls,
            lines_matches(PatternKind::Url, lines@),
        );
        crate::checkpoint::lemma_merged_extends(
            before.found_terms,
            lines_matches(PatternKind::Term, lines@),
        );
        assert(c@ == checkpoint_after(before, head@, lines@));
    }
    let summary = ScanSummary {
        total_crq_links: c.found_crq_links.len(),
        total_urls: c.found_urls.len(),
        total_terms: c.found_terms.len(),
        new_crq_links: c.found_crq_links.len() - n_crq,
        new_urls: c.found_urls.len() - n_urls,
        new_terms: c.found_terms.len() - n_terms,
    };
    let saved = c.copy();
    (ScanState::Persisting { cache: c, summary }, ScanAction::SaveCheckpoint { cache: saved })
}

/// A successful run keeps every result set free of repeats.
pub proof fn lemma_checkpoint_after_wf(before: ScanCacheView, head: Seq<char>, lines: Seq<LineRecord>)
    requires
        before.wf(),
    ensures
        checkpoint_after(before, head, lines).wf(),
{
    crate::checkpoint::lemma_merged_no_duplicates(
        before.found_crq_links,
        lines_matches(PatternKind::TrackingId, lines),
    );
    crate::checkpoint::lemma_merged_no_duplicates(
        before.found_urls,
        lines_matches(PatternKind::Url, lines),
    );
    crate::checkpoint::lemma_merged_no_duplicates(
        before.found_terms,
        lines_matches(PatternKind::Term, lines),
    );
}

} // verus!
