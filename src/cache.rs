//! Where fetched articles and entities are kept on disk: one JSON file per
//! key, under a directory of its kind, with a name made safe for a file system.
use vstd::prelude::*;
use vstd::string::StringExecFns;

use crate::text::{chars_of, string_from_chars};

verus! {

pub const WIKIPEDIA_CACHE_DIR: &'static str = "wikipedia_extractor/cache/wikipedia";

pub const WIKIDATA_CACHE_DIR: &'static str = "wikipedia_extractor/cache/wikidata";

/// The characters that a file name may not hold.
pub open spec fn is_unsafe_filename_char(c: char) -> bool {
    c == '/' || c == '\\' || c == ':' || c == '*' || c == '?' || c == '"' || c == '<' || c == '>'
        || c == '|'
}

pub open spec fn safe_char(c: char) -> char {
    if is_unsafe_filename_char(c) {
        '_'
    } else {
        c
    }
}

/// `name` with each unsafe character replaced by `_`.
pub open spec fn sanitized(name: Seq<char>) -> Seq<char> {
    name.map_values(|c: char| safe_char(c))
}

/// The cache file of key `key` under directory `dir`.
pub open spec fn cache_file(dir: Seq<char>, key: Seq<char>) -> Seq<char> {
    dir + "/"@ + sanitized(key) + ".json"@
}

/// `name` with `/ \ : * ? " < > |` each replaced by `_`.
pub fn sanitize_filename(name: &str) -> (r: String)
    ensures
        r@ == sanitized(name@),
{
    let cs = chars_of(name);
    let mut out: Vec<char> = Vec::new();
    let mut i: usize = 0;
    while i < cs.len()
        invariant
            i <= cs@.len(),
            cs@ == name@,
            out@ == sanitized(name@).subrange(0, i as int),
        decreases cs@.len() - i,
    {
        let c = cs[i];
        let unsafe_char = c == '/' || c == '\\' || c == ':' || c == '*' || c == '?' || c == '"'
            || c == '<' || c == '>' || c == '|';
        out.push(if unsafe_char { '_' } else { c });
        proof {
            assert(sanitized(name@).subrange(0, i + 1) =~= sanitized(name@).subrange(0, i as int).push(
                safe_char(c),
            ));
        }
        i = i + 1;
    }
    proof {
        assert(sanitized(name@).subrange(0, i as int) =~= sanitized(name@));
    }
    string_from_chars(out.as_slice())
}

fn cache_path(dir: &str, key: &str) -> (r: String)
    ensures
        r@ == cache_file(dir@, key@),
{
    let mut p = String::from_str(dir);
    p.append("/");
    let name = sanitize_filename(key);
    p.append(name.as_str());
    p.append(".json");
    p
}

/// The cache file of the article titled `title`.
pub fn get_wikipedia_cache_path(title: &str) -> (r: String)
    ensures
        r@ == cache_file(WIKIPEDIA_CACHE_DIR@, title@),
{
    cache_path(WIKIPEDIA_CACHE_DIR, title)
}

/// The cache file of the entity with id `id`.
pub fn get_wikidata_cache_path(id: &str) -> (r: String)
    ensures
        r@ == cache_file(WIKIDATA_CACHE_DIR@, id@),
{
    cache_path(WIKIDATA_CACHE_DIR, id)
}

} // verus!
