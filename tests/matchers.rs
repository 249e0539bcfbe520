use wikipedia_extractor::cache::{get_wikidata_cache_path, get_wikipedia_cache_path, sanitize_filename};
use wikipedia_extractor::checkpoint::{contains_text, has_no_repeats, merge_into, ScanCache};
use wikipedia_extractor::patterns::{find_matches, PatternKind};
use wikipedia_extractor::text::chars_of;

fn find(kind: PatternKind, s: &str) -> Vec<String> {
    let cs: Vec<char> = s.chars().collect();
    find_matches(kind, &cs)
}

fn strings(v: &[&str]) -> Vec<String> {
    v.iter().map(|s| s.to_string()).collect()
}

#[test]
fn tracking_ids_need_digits() {
    assert_eq!(find(PatternKind::TrackingId, "CRQ-12 CRQ- CRQ-x CRQ-CRQ-3 aCRQ-4b"), strings(&["CRQ-12", "CRQ-3", "CRQ-4"]));
    assert!(find(PatternKind::TrackingId, "").is_empty());
}

#[test]
fn urls_drop_trailing_punctuation() {
    assert_eq!(
        find(PatternKind::Url, "see https://example.com/a?b=1). and http://x.org, ok"),
        strings(&["https://example.com/a?b=1", "http://x.org"])
    );
    assert!(find(PatternKind::Url, "http://... ftp://x.org").is_empty());
    assert_eq!(find(PatternKind::Url, "(http://a.b/c)"), strings(&["http://a.b/c"]));
}

#[test]
fn terms_start_with_letter_or_underscore() {
    assert_eq!(
        find(PatternKind::Term, "_x1 9abc the_end, CRQ-5"),
        strings(&["_x1", "the_end", "CRQ"])
    );
    assert!(find(PatternKind::Term, "123 -- !!").is_empty());
}

#[test]
fn merge_appends_unseen_values_once() {
    let mut existing = strings(&["a", "b"]);
    merge_into(&mut existing, &strings(&["c", "a", "c", "d"]));
    assert_eq!(existing, strings(&["a", "b", "c", "d"]));
    assert!(has_no_repeats(&existing));
    assert!(!has_no_repeats(&strings(&["q", "r", "q"])));
    assert!(contains_text(&existing, &"d".to_string()));
    assert!(!contains_text(&existing, &"e".to_string()));
}

#[test]
fn empty_checkpoint_is_well_formed() {
    let c = ScanCache::empty();
    assert!(c.last_scanned_commit.is_none());
    assert!(c.found_crq_links.is_empty() && c.found_urls.is_empty() && c.found_terms.is_empty());
    assert!(c.is_well_formed());
}

#[test]
fn text_becomes_characters() {
    assert_eq!(chars_of("héllo"), vec!['h', 'é', 'l', 'l', 'o']);
    assert!(chars_of("").is_empty());
}

#[test]
fn matches_are_new_strings_of_the_matched_text() {
    let found = find(PatternKind::Url, "à http://dé.org/ü.");
    assert_eq!(found, strings(&["http://dé.org/ü"]));
}

#[test]
fn filenames_lose_unsafe_characters() {
    assert_eq!(sanitize_filename("a/b\\c:d*e?f\"g<h>i|j"), "a_b_c_d_e_f_g_h_i_j");
    assert_eq!(sanitize_filename("Rust (programming language)"), "Rust (programming language)");
    assert_eq!(sanitize_filename(""), "");
}

#[test]
fn cache_paths_sit_under_their_directories() {
    assert_eq!(
        get_wikipedia_cache_path("AC/DC"),
        "wikipedia_extractor/cache/wikipedia/AC_DC.json"
    );
    assert_eq!(get_wikidata_cache_path("Q768046"), "wikipedia_extractor/cache/wikidata/Q768046.json");
}
