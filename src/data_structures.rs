//! The records that the fetchers produce and the cache stores.
use vstd::prelude::*;

verus! {

/// A link found in an article: its target and its text.
#[derive(Debug, PartialEq, Eq, Clone)]
pub struct WikipediaLink {
    pub href: String,
    pub text: String,
}

/// An article as extracted from its page.
#[derive(Debug, PartialEq, Eq, Clone)]
pub struct WikipediaArticle {
    pub title: String,
    pub url: String,
    pub revision_id: Option<u64>,
    pub content: String,
    pub links: Vec<WikipediaLink>,
}

/// One statement of an entity: a property id and its value as text.
#[derive(Debug, PartialEq, Eq, Clone)]
pub struct WikidataFact {
    pub property: String,
    pub value: String,
}

/// An entity with its English label and its facts.
#[derive(Debug, PartialEq, Eq, Clone)]
pub struct WikidataEntity {
    pub id: String,
    pub label: String,
    pub facts: Vec<WikidataFact>,
}

/// A template call `{{name|param|...}}`, its parameters as written.
#[derive(Debug, PartialEq, Eq, Clone)]
pub struct TemplateInvocation {
    pub name: String,
    pub params: Vec<String>,
}

} // verus!
