use wikipedia_extractor::checkpoint::ScanCache;
use wikipedia_extractor::extract::{LineOrigin, LineRecord};
use wikipedia_extractor::scan::{ScanAction, ScanError, ScanEvent, ScanState, ScanSummary};

const C1: &str = "1111111111111111111111111111111111111111";
const C2: &str = "2222222222222222222222222222222222222222";
const C3: &str = "3333333333333333333333333333333333333333";

fn oid(s: &str) -> git2::Oid {
    git2::Oid::from_str(s).unwrap()
}

fn line(origin: LineOrigin, text: &str) -> LineRecord {
    LineRecord { origin, text: text.as_bytes().to_vec() }
}

fn strings(v: &[&str]) -> Vec<String> {
    v.iter().map(|s| s.to_string()).collect()
}

fn count(v: &[String], x: &str) -> usize {
    v.iter().filter(|s| s.as_str() == x).count()
}

/// Drives one whole run: each commit is given with its first parent and the
/// lines of its diff. Returns the checkpoint handed out for saving.
fn run(
    cache: Option<ScanCache>,
    head: &str,
    commits: Vec<(&str, Option<&str>, Vec<LineRecord>)>,
) -> (ScanCache, ScanState) {
    let (s, a) = ScanState::start();
    assert!(matches!(a, ScanAction::LoadCheckpoint));
    let (s, a) = s.step(ScanEvent::CheckpointLoaded { cache });
    assert!(matches!(a, ScanAction::ResolveHead));
    let (mut s, a) = s.step(ScanEvent::HeadResolved { head: head.to_string() });
    assert!(matches!(a, ScanAction::Traverse { .. }));
    for (commit, parent, lines) in commits {
        let (s2, a) = s.step(ScanEvent::CommitFound {
            commit: oid(commit),
            first_parent: parent.map(oid),
        });
        match a {
            ScanAction::DiffCommit { commit: c, base } => {
                assert_eq!(c, oid(commit));
                assert_eq!(base, parent.map(oid));
            }
            _ => panic!("expected a diff"),
        }
        let (s3, a) = s2.step(ScanEvent::CommitDiffed { lines });
        assert!(matches!(a, ScanAction::NextCommit));
        s = s3;
    }
    let (s, a) = s.step(ScanEvent::TraversalFinished);
    match a {
        ScanAction::SaveCheckpoint { cache } => (cache, s),
        _ => panic!("expected a save"),
    }
}

#[test]
fn two_commit_repository_scan() {
    let (cache, s) = run(
        None,
        C2,
        vec![
            (C2, Some(C1), vec![line(LineOrigin::Added, "token_name CRQ-123\n")]),
            (C1, None, vec![line(LineOrigin::Added, "See CRQ-123 at https://example.com\n")]),
        ],
    );
    assert_eq!(cache.found_crq_links, strings(&["CRQ-123"]));
    assert_eq!(cache.found_urls, strings(&["https://example.com"]));
    assert_eq!(count(&cache.found_terms, "See"), 1);
    assert_eq!(count(&cache.found_terms, "at"), 1);
    assert_eq!(count(&cache.found_terms, "token_name"), 1);
    assert_eq!(cache.last_scanned_commit, Some(C2.to_string()));
    let (s, a) = s.step(ScanEvent::CheckpointSaved);
    assert!(matches!(s, ScanState::Done { .. }));
    match a {
        ScanAction::Report { summary } => {
            assert_eq!(summary.total_crq_links, 1);
            assert_eq!(summary.new_crq_links, 1);
            assert_eq!(summary.total_urls, 1);
            assert_eq!(summary.total_terms, cache.found_terms.len());
        }
        _ => panic!("expected a report"),
    }
}

#[test]
fn terms_keep_first_seen_order() {
    let (cache, _) = run(
        None,
        C1,
        vec![(C1, None, vec![line(LineOrigin::Added, "See CRQ-123 at https://example.com\n")])],
    );
    assert_eq!(cache.found_terms, strings(&["See", "CRQ", "at", "https", "example", "com"]));
}

#[test]
fn rescan_without_new_commits_changes_nothing() {
    let commits = vec![(C1, None, vec![line(LineOrigin::Added, "CRQ-7 http://a.org word\n")])];
    let (first, _) = run(None, C1, commits);
    let copy = first.copy();
    let (s, a) = ScanState::start();
    assert!(matches!(a, ScanAction::LoadCheckpoint));
    let (s, _) = s.step(ScanEvent::CheckpointLoaded { cache: Some(first) });
    let (s, a) = s.step(ScanEvent::HeadResolved { head: C1.to_string() });
    match a {
        ScanAction::Traverse { exclude } => assert_eq!(exclude, Some(oid(C1))),
        _ => panic!("expected a walk"),
    }
    let (_, a) = s.step(ScanEvent::TraversalFinished);
    match a {
        ScanAction::SaveCheckpoint { cache } => {
            assert_eq!(cache.last_scanned_commit, copy.last_scanned_commit);
            assert_eq!(cache.found_crq_links, copy.found_crq_links);
            assert_eq!(cache.found_urls, copy.found_urls);
            assert_eq!(cache.found_terms, copy.found_terms);
        }
        _ => panic!("expected a save"),
    }
}

#[test]
fn repeated_match_is_kept_once() {
    let (cache, _) = run(
        None,
        C3,
        vec![
            (C3, Some(C2), vec![line(LineOrigin::Added, "CRQ-9 CRQ-9\n")]),
            (C2, Some(C1), vec![line(LineOrigin::Context, "fix CRQ-9\n")]),
            (C1, None, vec![line(LineOrigin::Added, "CRQ-9 and CRQ-10\n")]),
        ],
    );
    assert_eq!(cache.found_crq_links, strings(&["CRQ-9", "CRQ-10"]));
}

#[test]
fn new_findings_are_appended_after_old_ones() {
    let mut before = ScanCache::empty();
    before.found_crq_links = strings(&["CRQ-5"]);
    before.last_scanned_commit = Some(C1.to_string());
    let (cache, s) = run(
        Some(before),
        C2,
        vec![(C2, Some(C1), vec![line(LineOrigin::Added, "CRQ-6 CRQ-5\n")])],
    );
    assert_eq!(cache.found_crq_links, strings(&["CRQ-5", "CRQ-6"]));
    let (_, a) = s.step(ScanEvent::CheckpointSaved);
    match a {
        ScanAction::Report { summary } => {
            assert_eq!(summary.total_crq_links, 2);
            assert_eq!(summary.new_crq_links, 1);
        }
        _ => panic!("expected a report"),
    }
}

#[test]
fn removed_lines_are_not_scanned() {
    let (cache, _) = run(
        None,
        C2,
        vec![
            (C2, Some(C1), vec![line(LineOrigin::Removed, "CRQ-42 https://gone.example\n")]),
            (C1, None, vec![line(LineOrigin::Added, "kept\n")]),
        ],
    );
    assert!(cache.found_crq_links.is_empty());
    assert!(cache.found_urls.is_empty());
    assert_eq!(cache.found_terms, strings(&["kept"]));
}

#[test]
fn non_utf8_lines_are_skipped() {
    let bad = LineRecord { origin: LineOrigin::Added, text: vec![0x43, 0xff, 0x52] };
    let (cache, _) = run(
        None,
        C1,
        vec![(C1, None, vec![bad, line(LineOrigin::Added, "CRQ-1\n")])],
    );
    assert_eq!(cache.found_crq_links, strings(&["CRQ-1"]));
}

#[test]
fn missing_checkpoint_walks_whole_history() {
    let (s, _) = ScanState::start();
    let (s, _) = s.step(ScanEvent::CheckpointLoaded { cache: None });
    let (_, a) = s.step(ScanEvent::HeadResolved { head: C1.to_string() });
    match a {
        ScanAction::Traverse { exclude } => assert_eq!(exclude, None),
        _ => panic!("expected a walk"),
    }
}

#[test]
fn malformed_last_commit_is_not_excluded() {
    let mut before = ScanCache::empty();
    before.last_scanned_commit = Some("not-a-commit".to_string());
    let (s, _) = ScanState::start();
    let (s, _) = s.step(ScanEvent::CheckpointLoaded { cache: Some(before) });
    let (_, a) = s.step(ScanEvent::HeadResolved { head: C1.to_string() });
    match a {
        ScanAction::Traverse { exclude } => assert_eq!(exclude, None),
        _ => panic!("expected a walk"),
    }
}

#[test]
fn corrupt_checkpoint_aborts() {
    let (s, _) = ScanState::start();
    let (s, a) = s.step(ScanEvent::CheckpointCorrupt);
    assert!(matches!(s, ScanState::Aborted { error: ScanError::CorruptCheckpoint }));
    assert!(matches!(a, ScanAction::Abort { error: ScanError::CorruptCheckpoint }));
    assert!(s.is_finished());
}

#[test]
fn checkpoint_with_repeats_is_corrupt() {
    let mut before = ScanCache::empty();
    before.found_urls = strings(&["http://x.org", "http://x.org"]);
    let (s, _) = ScanState::start();
    let (_, a) = s.step(ScanEvent::CheckpointLoaded { cache: Some(before) });
    assert!(matches!(a, ScanAction::Abort { error: ScanError::CorruptCheckpoint }));
}

#[test]
fn missing_head_aborts() {
    let (s, _) = ScanState::start();
    let (s, _) = s.step(ScanEvent::CheckpointLoaded { cache: None });
    let (_, a) = s.step(ScanEvent::HeadMissing);
    assert!(matches!(a, ScanAction::Abort { error: ScanError::NoHead }));
}

#[test]
fn failed_diff_aborts() {
    let (s, _) = ScanState::start();
    let (s, _) = s.step(ScanEvent::CheckpointLoaded { cache: None });
    let (s, _) = s.step(ScanEvent::HeadResolved { head: C1.to_string() });
    let (s, _) = s.step(ScanEvent::CommitDiffed {
        lines: vec![line(LineOrigin::Added, "CRQ-1\n")],
    });
    let (s, a) = s.step(ScanEvent::TraversalFailed);
    assert!(matches!(a, ScanAction::Abort { error: ScanError::DiffComputation }));
    assert!(!s.accepts(&ScanEvent::TraversalFinished));
}

#[test]
fn failed_save_aborts() {
    let (_, s) = run(None, C1, vec![(C1, None, vec![line(LineOrigin::Added, "x\n")])]);
    let (s, a) = s.step(ScanEvent::CheckpointSaveFailed);
    assert!(matches!(a, ScanAction::Abort { error: ScanError::CheckpointWrite }));
    assert!(matches!(s, ScanState::Aborted { error: ScanError::CheckpointWrite }));
}

#[test]
fn states_accept_only_their_events() {
    let (s, _) = ScanState::start();
    assert!(s.accepts(&ScanEvent::CheckpointCorrupt));
    assert!(!s.accepts(&ScanEvent::CheckpointSaved));
    assert!(!s.accepts(&ScanEvent::HeadMissing));
    assert!(!s.is_finished());
}

#[test]
fn summary_counts_are_plain_values() {
    let a = ScanSummary {
        total_crq_links: 1,
        total_urls: 2,
        total_terms: 3,
        new_crq_links: 0,
        new_urls: 1,
        new_terms: 2,
    };
    assert_eq!(a, a.clone());
}

#[test]
fn short_hex_last_commit_is_excluded() {
    let mut before = ScanCache::empty();
    before.last_scanned_commit = Some("abc".to_string());
    let (s, _) = ScanState::start();
    let (s, _) = s.step(ScanEvent::CheckpointLoaded { cache: Some(before) });
    let (_, a) = s.step(ScanEvent::HeadResolved { head: C1.to_string() });
    match a {
        ScanAction::Traverse { exclude } => assert_eq!(exclude, Some(oid("abc"))),
        _ => panic!("expected a walk"),
    }
}

#[test]
fn overlong_last_commit_is_not_excluded() {
    let mut before = ScanCache::empty();
    before.last_scanned_commit = Some(format!("{}0", C1));
    let (s, _) = ScanState::start();
    let (s, _) = s.step(ScanEvent::CheckpointLoaded { cache: Some(before) });
    let (_, a) = s.step(ScanEvent::HeadResolved { head: C1.to_string() });
    match a {
        ScanAction::Traverse { exclude } => assert_eq!(exclude, None),
        _ => panic!("expected a walk"),
    }
}
