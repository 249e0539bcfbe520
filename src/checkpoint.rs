//! The durable state of a scan: the last commit scanned and the three sets of
//! findings, each kept as a list without repeats in first-seen order.
use vstd::prelude::*;

use crate::patterns::views;

verus! {

/// The checkpoint that a scan loads at its start and writes back at its end.
pub struct ScanCache {
    /// The hex id of the head commit of the last successful scan.
    pub last_scanned_commit: Option<String>,
    pub found_crq_links: Vec<String>,
    pub found_urls: Vec<String>,
    pub found_terms: Vec<String>,
}

pub struct ScanCacheView {
    pub last_scanned_commit: Option<Seq<char>>,
    pub found_crq_links: Seq<Seq<char>>,
    pub found_urls: Seq<Seq<char>>,
    pub found_terms: Seq<Seq<char>>,
}

pub open spec fn opt_view(o: Option<String>) -> Option<Seq<char>> {
    match o {
        Some(s) => Some(s@),
        None => None,
    }
}

impl View for ScanCache {
    type V = ScanCacheView;

    open spec fn view(&self) -> ScanCacheView {
        ScanCacheView {
            last_scanned_commit: opt_view(self.last_scanned_commit),
            found_crq_links: views(self.found_crq_links@),
            found_urls: views(self.found_urls@),
            found_terms: views(self.found_terms@),
        }
    }
}

impl ScanCacheView {
    /// Each result set holds every value at most once.
    pub open spec fn wf(self) -> bool {
        &&& self.found_crq_links.no_duplicates()
        &&& self.found_urls.no_duplicates()
        &&& self.found_terms.no_duplicates()
    }

    pub open spec fn is_empty(self) -> bool {
        &&& self.last_scanned_commit is None
        &&& self.found_crq_links.len() == 0
        &&& self.found_urls.len() == 0
        &&& self.found_terms.len() == 0
    }
}

/// `existing` followed by the values of `found` that are not in it yet, each
/// once, in the order in which they first occur in `found`.
pub open spec fn merged(existing: Seq<Seq<char>>, found: Seq<Seq<char>>) -> Seq<Seq<char>>
    decreases found.len(),
{
    if found.len() == 0 {
        existing
    } else {
        let m = merged(existing, found.drop_last());
        if m.contains(found.last()) {
            m
        } else {
            m.push(found.last())
        }
    }
}

/// Merging keeps what was there, in its place.
pub proof fn lemma_merged_extends(existing: Seq<Seq<char>>, found: Seq<Seq<char>>)
    ensures
        merged(existing, found).len() >= existing.len(),
        merged(existing, found).subrange(0, existing.len() as int) == existing,
    decreases found.len(),
{
    if found.len() > 0 {
        lemma_merged_extends(existing, found.drop_last());
        let m = merged(existing, found.drop_last());
        assert(m.push(found.last()).subrange(0, existing.len() as int) =~= m.subrange(
            0,
            existing.len() as int,
        ));
    }
}

/// A value is in the merged list exactly when it was in one of the two.
pub proof fn lemma_merged_contains(existing: Seq<Seq<char>>, found: Seq<Seq<char>>, x: Seq<char>)
    ensures
        merged(existing, found).contains(x) <==> (existing.contains(x) || found.contains(x)),
    decreases found.len(),
{
    if found.len() > 0 {
        let init = found.drop_last();
        lemma_merged_contains(existing, init, x);
        let m = merged(existing, init);
        if m.push(found.last()).contains(x) && !m.contains(x) {
            let k = choose|k: int| 0 <= k < m.push(found.last()).len() && m.push(found.last())[k]
                == x;
            assert(k == m.len());
        }
        if found.contains(x) && !init.contains(x) {
            let k = choose|k: int| 0 <= k < found.len() && found[k] == x;
            if k < init.len() {
                assert(init[k] == x);
            }
            assert(x == found.last());
            assert(m.push(found.last())[m.len() as int] == x);
        }
        if init.contains(x) {
            let k = choose|k: int| 0 <= k < init.len() && init[k] == x;
            assert(found[k] == x);
        }
        if m.contains(x) {
            let k = choose|k: int| 0 <= k < m.len() && m[k] == x;
            assert(m.push(found.last())[k] == x);
        }
    }
}

/// Merging into a list without repeats gives a list without repeats.
pub proof fn lemma_merged_no_duplicates(existing: Seq<Seq<char>>, found: Seq<Seq<char>>)
    requires
        existing.no_duplicates(),
    ensures
        merged(existing, found).no_duplicates(),
    decreases found.len(),
{
    if found.len() > 0 {
        lemma_merged_no_duplicates(existing, found.drop_last());
        let m = merged(existing, found.drop_last());
        if !m.contains(found.last()) {
            let n = m.push(found.last());
            assert forall|i: int, j: int| 0 <= i < n.len() && 0 <= j < n.len() && i != j implies n[i]
                != n[j] by {
                if i == m.len() {
                    assert(m[j] == n[j]);
                } else if j == m.len() {
                    assert(m[i] == n[i]);
                } else {
                    assert(m[i] == n[i] && m[j] == n[j]);
                }
            }
        }
    }
}

/// Merging values that are all there already changes nothing.
pub proof fn lemma_merged_nothing_new(existing: Seq<Seq<char>>, found: Seq<Seq<char>>)
    requires
        forall|i: int| 0 <= i < found.len() ==> existing.contains(#[trigger] found[i]),
    ensures
        merged(existing, found) == existing,
    decreases found.len(),
{
    if found.len() > 0 {
        let init = found.drop_last();
        assert forall|i: int| 0 <= i < init.len() implies existing.contains(#[trigger] init[i]) by {
            assert(init[i] == found[i]);
        }
        lemma_merged_nothing_new(existing, init);
        assert(existing.contains(found[found.len() - 1]));
    }
}

/// Whether `x` is among the views of `v`.
pub fn contains_text(v: &Vec<String>, x: &String) -> (r: bool)
    ensures
        r == views(v@).contains(x@),
{
    let mut i: usize = 0;
    while i < v.len()
        invariant
            i <= v@.len(),
            forall|k: int| 0 <= k < i ==> v@[k]@ != x@,
        decreases v@.len() - i,
    {
        if v[i] == *x {
            proof {
                assert(views(v@)[i as int] == x@);
            }
            return true;
        }
        i = i + 1;
    }
    proof {
        if views(v@).contains(x@) {
            let k = choose|k: int| 0 <= k < views(v@).len() && views(v@)[k] == x@;
            assert(v@[k]@ == x@);
        }
    }
    false
}

/// Appends to `existing` each value of `found` that it does not hold yet,
/// in first-seen order.
pub fn merge_into(existing: &mut Vec<String>, found: &Vec<String>)
    ensures
        views(final(existing)@) == merged(views(old(existing)@), views(found@)),
{
    let mut i: usize = 0;
    while i < found.len()
        invariant
            i <= found@.len(),
            views(existing@) == merged(views(old(existing)@), views(found@).subrange(0, i as int)),
        decreases found@.len() - i,
    {
        let ghost before = views(existing@);
        proof {
            let pre = views(found@).subrange(0, i as int + 1);
            assert(pre.drop_last() =~= views(found@).subrange(0, i as int));
            assert(pre.last() == found@[i as int]@);
        }
        if !contains_text(existing, &found[i]) {
            let v = found[i].clone();
            existing.push(v);
            proof {
                assert(views(existing@) =~= before.push(found@[i as int]@));
            }
        }
        i = i + 1;
    }
    proof {
        assert(views(found@).subrange(0, i as int) =~= views(found@));
    }
}

/// A copy of `v`, value for value.
pub fn copy_texts(v: &Vec<String>) -> (r: Vec<String>)
    ensures
        views(r@) == views(v@),
{
    let mut out: Vec<String> = Vec::new();
    let mut i: usize = 0;
    while i < v.len()
        invariant
            i <= v@.len(),
            views(out@) == views(v@).subrange(0, i as int),
        decreases v@.len() - i,
    {
        let x = v[i].clone();
        let ghost prev = out@;
        out.push(x);
        proof {
            assert(views(out@) =~= views(prev).push(v@[i as int]@));
            assert(views(v@).subrange(0, i + 1) =~= views(v@).subrange(0, i as int).push(
                v@[i as int]@,
            ));
        }
        i = i + 1;
    }
    proof {
        assert(views(v@).subrange(0, i as int) =~= views(v@));
    }
    out
}

/// Whether no value stands twice in `v`.
pub fn has_no_repeats(v: &Vec<String>) -> (r: bool)
    ensures
        r == views(v@).no_duplicates(),
{
    let ghost w = views(v@);
    let mut i: usize = 0;
    while i < v.len()
        invariant
            i <= v@.len(),
            w == views(v@),
            forall|a: int, b: int| 0 <= a < b < i ==> w[a] != w[b],
        decreases v@.len() - i,
    {
        let mut j: usize = 0;
        while j < i
            invariant
                j <= i < v@.len(),
                w == views(v@),
                forall|a: int, b: int| 0 <= a < b < i ==> w[a] != w[b],
                forall|a: int| 0 <= a < j ==> w[a] != w[i as int],
            decreases i - j,
        {
            if v[j] == v[i] {
                proof {
                    assert(w[j as int] == w[i as int]);
                }
                return false;
            }
            j = j + 1;
        }
        i = i + 1;
    }
    proof {
        assert forall|a: int, b: int| 0 <= a < w.len() && 0 <= b < w.len() && a != b implies w[a]
            != w[b] by {
            if a < b {
                assert(w[a] != w[b]);
            } else {
                assert(w[b] != w[a]);
            }
        }
    }
    true
}

impl ScanCache {
    /// A copy of this checkpoint.
    pub fn copy(&self) -> (r: ScanCache)
        ensures
            r@ == self@,
    {
        let last = match &self.last_scanned_commit {
            Some(s) => Some(s.clone()),
            None => None,
        };
        ScanCache {
            last_scanned_commit: last,
            found_crq_links: copy_texts(&self.found_crq_links),
            found_urls: copy_texts(&self.found_urls),
            found_terms: copy_texts(&self.found_terms),
        }
    }

    /// Whether each result set holds every value at most once.
    pub fn is_well_formed(&self) -> (r: bool)
        ensures
            r == self@.wf(),
    {
        has_no_repeats(&self.found_crq_links) && has_no_repeats(&self.found_urls)
            && has_no_repeats(&self.found_terms)
    }

    /// The checkpoint of a repository that was never scanned.
    pub fn empty() -> (r: ScanCache)
        ensures
            r@.is_empty(),
            r@.wf(),
    {
        let r = ScanCache {
            last_scanned_commit: None,
            found_crq_links: Vec::new(),
            found_urls: Vec::new(),
            found_terms: Vec::new(),
        };
        proof {
            assert(r@.found_crq_links =~= Seq::<Seq<char>>::empty());
            assert(r@.found_urls =~= Seq::<Seq<char>>::empty());
            assert(r@.found_terms =~= Seq::<Seq<char>>::empty());
        }
        r
    }
}

} // verus!
