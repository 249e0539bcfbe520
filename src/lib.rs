//! Incremental mining of a repository's history for tracking ids, URLs and
//! terms, with the checkpoint that lets each run take up where the last one
//! ended; and the records and cache layout of the article and entity
//! fetchers around it.
pub mod cache;
pub mod checkpoint;
pub mod commit_id;
pub mod data_structures;
pub mod extract;
pub mod laws;
pub mod links;
pub mod patterns;
pub mod scan;
pub mod template;
pub mod text;
pub mod wikidata;

pub use data_structures::{
    TemplateInvocation,
    WikidataEntity,
    WikidataFact,
    WikipediaArticle,
    WikipediaLink,
};
