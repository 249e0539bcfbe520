//! The rules of an entity lookup: what to ask the service, which entity of
//! the answer to take, where each kind of statement keeps its value, and under
//! which key the result is cached.
use vstd::prelude::*;
use vstd::string::StringExecFns;

use crate::text::{chars_of, string_from_chars};

verus! {

/// Whether `a` and `b` are the same text.
pub fn same_text(a: &str, b: &str) -> (r: bool)
    ensures
        r == (a@ == b@),
{
    let x = chars_of(a);
    let y = chars_of(b);
    if x.len() != y.len() {
        return false;
    }
    let mut i: usize = 0;
    while i < x.len()
        invariant
            x@ == a@,
            y@ == b@,
            x@.len() == y@.len(),
            i <= x@.len(),
            forall|k: int| 0 <= k < i ==> x@[k] == y@[k],
        decreases x@.len() - i,
    {
        if x[i] != y[i] {
            return false;
        }
        i = i + 1;
    }
    proof {
        assert(x@ =~= y@);
    }
    true
}

pub open spec fn pair_views(v: Seq<(String, String)>) -> Seq<(Seq<char>, Seq<char>)> {
    v.map_values(|p: (String, String)| (p.0@, p.1@))
}

/// The parameters of a lookup by article title, or else by entity id.
pub open spec fn query_of(title: Option<Seq<char>>, id: Option<Seq<char>>) -> Option<
    Seq<(Seq<char>, Seq<char>)>,
> {
    let base = seq![
        ("action"@, "wbgetentities"@),
        ("format"@, "json"@),
        ("props"@, "labels|claims"@),
    ];
    match title {
        Some(t) => Some(base + seq![("sites"@, "enwiki"@), ("titles"@, t)]),
        None => match id {
            Some(i) => Some(base + seq![("ids"@, i)]),
            None => None,
        },
    }
}

pub open spec fn str_opt_view(o: Option<&str>) -> Option<Seq<char>> {
    match o {
        Some(s) => Some(s@),
        None => None,
    }
}

fn pair(k: &str, v: &str) -> (r: (String, String))
    ensures
        r.0@ == k@,
        r.1@ == v@,
{
    (String::from_str(k), String::from_str(v))
}

/// The query parameters of a lookup; `None` when neither a title nor an id
/// is given.
pub fn entity_query_params(wikipedia_title: Option<&str>, wikidata_id: Option<&str>) -> (r: Option<
    Vec<(String, String)>,
>)
    ensures
        match query_of(str_opt_view(wikipedia_title), str_opt_view(wikidata_id)) {
            None => r is None,
            Some(q) => r matches Some(v) && pair_views(v@) == q,
        },
{
    let mut params: Vec<(String, String)> = Vec::new();
    params.push(pair("action", "wbgetentities"));
    params.push(pair("format", "json"));
    params.push(pair("props", "labels|claims"));
    match wikipedia_title {
        Some(title) => {
            params.push(pair("sites", "enwiki"));
            params.push(pair("titles", title));
        },
        None => match wikidata_id {
            Some(id) => {
                params.push(pair("ids", id));
            },
            None => {
                return None;
            },
        },
    }
    proof {
        let q = query_of(str_opt_view(wikipedia_title), str_opt_view(wikidata_id));
        assert(pair_views(params@) =~= q->0);
    }
    Some(params)
}

/// Entity ids start with `Q`.
pub open spec fn is_entity_id(s: Seq<char>) -> bool {
    s.len() > 0 && s[0] == 'Q'
}

/// The first of `ids` that is an entity id.
pub fn first_entity_index(ids: &Vec<String>) -> (r: Option<usize>)
    ensures
        match r {
            Some(i) => i < ids@.len() && is_entity_id(ids@[i as int]@) && forall|j: int|
                0 <= j < i ==> !is_entity_id(#[trigger] ids@[j]@),
            None => forall|j: int| 0 <= j < ids@.len() ==> !is_entity_id(#[trigger] ids@[j]@),
        },
{
    let mut i: usize = 0;
    while i < ids.len()
        invariant
            i <= ids@.len(),
            forall|j: int| 0 <= j < i ==> !is_entity_id(#[trigger] ids@[j]@),
        decreases ids@.len() - i,
    {
        let cs = chars_of(ids[i].as_str());
        if cs.len() > 0 && cs[0] == 'Q' {
            return Some(i);
        }
        i = i + 1;
    }
    None
}

/// Where a statement keeps its value as text.
#[derive(Debug, PartialEq, Eq, Clone)]
pub enum FactField {
    /// The value is the text itself.
    Whole,
    /// The value is an object whose member `key` holds the text.
    Member { key: String },
}

/// Where a statement of value type `t` keeps its text; `None` for the types
/// that give no fact.
pub open spec fn fact_field_of(t: Seq<char>) -> Option<Option<Seq<char>>> {
    if t == "string"@ {
        Some(None)
    } else if t == "wikibase-entityid"@ {
        Some(Some("id"@))
    } else if t == "monolingualtext"@ {
        Some(Some("text"@))
    } else if t == "time"@ {
        Some(Some("time"@))
    } else if t == "quantity"@ {
        Some(Some("amount"@))
    } else {
        None
    }
}

fn member(key: &str) -> (r: Option<FactField>)
    ensures
        r matches Some(FactField::Member { key: k }) && k@ == key@,
{
    Some(FactField::Member { key: String::from_str(key) })
}

/// Where a statement of value type `value_type` keeps its text.
pub fn fact_value_field(value_type: &str) -> (r: Option<FactField>)
    ensures
        match fact_field_of(value_type@) {
            None => r is None,
            Some(None) => r matches Some(FactField::Whole),
            Some(Some(key)) => r matches Some(FactField::Member { key: k }) && k@ == key,
        },
{
    if same_text(value_type, "string") {
        Some(FactField::Whole)
    } else if same_text(value_type, "wikibase-entityid") {
        member("id")
    } else if same_text(value_type, "monolingualtext") {
        member("text")
    } else if same_text(value_type, "time") {
        member("time")
    } else if same_text(value_type, "quantity") {
        member("amount")
    } else {
        None
    }
}

/// The English label, or `Unknown` when there is none.
pub fn label_or_unknown(label: Option<&str>) -> (r: String)
    ensures
        r@ == match label {
            Some(l) => l@,
            None => "Unknown"@,
        },
{
    match label {
        Some(l) => String::from_str(l),
        None => String::from_str("Unknown"),
    }
}

/// `s` with each space replaced by `_`.
pub open spec fn underscored(s: Seq<char>) -> Seq<char> {
    s.map_values(|c: char|
        if c == ' ' {
            '_'
        } else {
            c
        })
}

/// The key under which a lookup is cached: the entity id when given, else
/// the title with spaces as underscores; `None` when neither is given.
pub fn entity_cache_key(wikipedia_title: Option<&str>, wikidata_id: Option<&str>) -> (r: Option<
    String,
>)
    ensures
        match (wikidata_id, wikipedia_title) {
            (Some(id), _) => r matches Some(k) && k@ == id@,
            (None, Some(t)) => r matches Some(k) && k@ == underscored(t@),
            (None, None) => r is None,
        },
{
    match wikidata_id {
        Some(id) => Some(String::from_str(id)),
        None => match wikipedia_title {
            Some(title) => {
                let cs = chars_of(title);
                let mut out: Vec<char> = Vec::new();
                let mut i: usize = 0;
                while i < cs.len()
                    invariant
                        cs@ == title@,
                        i <= cs@.len(),
                        out@ == underscored(title@).subrange(0, i as int),
                    decreases cs@.len() - i,
                {
                    out.push(if cs[i] == ' ' { '_' } else { cs[i] });
                    proof {
                        assert(underscored(title@).subrange(0, i + 1) =~= underscored(
                            title@,
                        ).subrange(0, i as int).push(underscored(title@)[i as int]));
                    }
                    i = i + 1;
                }
                proof {
                    assert(underscored(title@).subrange(0, i as int) =~= underscored(title@));
                }
                Some(string_from_chars(out.as_slice()))
            },
            None => None,
        },
    }
}

} // verus!
