use wikipedia_extractor::wikidata::{
    entity_cache_key, entity_query_params, fact_value_field, first_entity_index, label_or_unknown,
    same_text, FactField,
};

fn pairs(v: &[(&str, &str)]) -> Vec<(String, String)> {
    v.iter().map(|(k, x)| (k.to_string(), x.to_string())).collect()
}

#[test]
fn lookup_by_title_names_the_site() {
    assert_eq!(
        entity_query_params(Some("Rust (programming language)"), Some("Q1")),
        Some(pairs(&[
            ("action", "wbgetentities"),
            ("format", "json"),
            ("props", "labels|claims"),
            ("sites", "enwiki"),
            ("titles", "Rust (programming language)"),
        ]))
    );
}

#[test]
fn lookup_by_id() {
    assert_eq!(
        entity_query_params(None, Some("Q768046")),
        Some(pairs(&[
            ("action", "wbgetentities"),
            ("format", "json"),
            ("props", "labels|claims"),
            ("ids", "Q768046"),
        ]))
    );
    assert_eq!(entity_query_params(None, None), None);
}

#[test]
fn first_entity_id_wins() {
    let ids = vec!["-1".to_string(), "P31".to_string(), "Q5".to_string(), "Q6".to_string()];
    assert_eq!(first_entity_index(&ids), Some(2));
    assert_eq!(first_entity_index(&vec!["P1".to_string(), String::new()]), None);
    assert_eq!(first_entity_index(&Vec::new()), None);
}

#[test]
fn each_value_type_has_its_field() {
    assert_eq!(fact_value_field("string"), Some(FactField::Whole));
    assert_eq!(fact_value_field("wikibase-entityid"), Some(FactField::Member { key: "id".to_string() }));
    assert_eq!(fact_value_field("monolingualtext"), Some(FactField::Member { key: "text".to_string() }));
    assert_eq!(fact_value_field("time"), Some(FactField::Member { key: "time".to_string() }));
    assert_eq!(fact_value_field("quantity"), Some(FactField::Member { key: "amount".to_string() }));
    assert_eq!(fact_value_field("globecoordinate"), None);
    assert_eq!(fact_value_field("Time"), None);
}

#[test]
fn missing_label_reads_unknown() {
    assert_eq!(label_or_unknown(Some("Rust")), "Rust");
    assert_eq!(label_or_unknown(None), "Unknown");
}

#[test]
fn cache_key_prefers_the_id() {
    assert_eq!(entity_cache_key(Some("A b"), Some("Q1")), Some("Q1".to_string()));
    assert_eq!(
        entity_cache_key(Some("Rust (programming language)"), None),
        Some("Rust_(programming_language)".to_string())
    );
    assert_eq!(entity_cache_key(None, None), None);
}

#[test]
fn texts_compare_by_characters() {
    assert!(same_text("abc", "abc"));
    assert!(!same_text("abc", "abd"));
    assert!(!same_text("ab", "abc"));
    assert!(same_text("", ""));
}
