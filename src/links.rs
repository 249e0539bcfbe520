//! Which links of an article lead to another article, and the title they
//! name.
use vstd::prelude::*;

use crate::patterns::holds_at;
use crate::text::{chars_of, string_from_chars};
use crate::wikidata::{same_text, underscored};

verus! {

pub open spec fn wiki_prefix() -> Seq<char> {
    seq!['/', 'w', 'i', 'k', 'i', '/']
}

/// `s` with every leading copy of `/wiki/` taken off.
pub open spec fn strip_wiki_prefixes(s: Seq<char>) -> Seq<char>
    decreases s.len(),
{
    if holds_at(s, 0, wiki_prefix()) {
        strip_wiki_prefixes(s.subrange(6, s.len() as int))
    } else {
        s
    }
}

/// Whether a link to `path` on host `domain` leads to an article: a page of
/// the English site under `/wiki/`, outside the namespaces (no `:`), without
/// a fragment (no `#`).
pub open spec fn is_article_link(domain: Option<Seq<char>>, path: Seq<char>) -> bool {
    &&& domain == Some("en.wikipedia.org"@)
    &&& holds_at(path, 0, wiki_prefix())
    &&& !path.contains(':')
    &&& !path.contains('#')
}

/// The title that an article link names: its path without the `/wiki/`
/// prefix, spaces as underscores.
pub open spec fn title_of_link(path: Seq<char>) -> Seq<char> {
    underscored(strip_wiki_prefixes(path))
}

fn holds_prefix(s: &[char], start: usize) -> (r: bool)
    requires
        start <= s@.len(),
    ensures
        r == holds_at(s@.subrange(start as int, s@.len() as int), 0, wiki_prefix()),
{
    let ghost t = s@.subrange(start as int, s@.len() as int);
    let n: usize = s.len();
    if n - start < 6 {
        return false;
    }
    let r = s[start] == '/' && s[start + 1] == 'w' && s[start + 2] == 'i' && s[start + 3] == 'k'
        && s[start + 4] == 'i' && s[start + 5] == '/';
    proof {
        if r {
            assert(t.subrange(0, 6) =~= wiki_prefix());
        } else if holds_at(t, 0, wiki_prefix()) {
            assert(t.subrange(0, 6)[0] == t[0]);
            assert(t.subrange(0, 6)[1] == t[1]);
            assert(t.subrange(0, 6)[2] == t[2]);
            assert(t.subrange(0, 6)[3] == t[3]);
            assert(t.subrange(0, 6)[4] == t[4]);
            assert(t.subrange(0, 6)[5] == t[5]);
        }
    }
    r
}

fn contains_char(s: &[char], c: char) -> (r: bool)
    ensures
        r == s@.contains(c),
{
    let mut i: usize = 0;
    while i < s.len()
        invariant
            i <= s@.len(),
            forall|k: int| 0 <= k < i ==> s@[k] != c,
        decreases s@.len() - i,
    {
        if s[i] == c {
            return true;
        }
        i = i + 1;
    }
    false
}

/// The article title that a link to `path` on host `domain` names, when it
/// leads to an article.
pub fn article_title_from_link(domain: Option<&str>, path: &str) -> (r: Option<String>)
    ensures
        match r {
            Some(t) => is_article_link(
                match domain {
                    Some(d) => Some(d@),
                    None => None,
                },
                path@,
            ) && t@ == title_of_link(path@),
            None => !is_article_link(
                match domain {
                    Some(d) => Some(d@),
                    None => None,
                },
                path@,
            ),
        },
{
    let on_site = match domain {
        Some(d) => same_text(d, "en.wikipedia.org"),
        None => false,
    };
    let cs = chars_of(path);
    proof {
        assert(cs@.subrange(0, cs@.len() as int) =~= cs@);
    }
    if !on_site || !holds_prefix(cs.as_slice(), 0) || contains_char(cs.as_slice(), ':')
        || contains_char(cs.as_slice(), '#') {
        return None;
    }
    let mut start: usize = 0;
    while holds_prefix(cs.as_slice(), start)
        invariant
            start <= cs@.len(),
            strip_wiki_prefixes(cs@) == strip_wiki_prefixes(
                cs@.subrange(start as int, cs@.len() as int),
            ),
        decreases cs@.len() - start,
    {
        proof {
            let t = cs@.subrange(start as int, cs@.len() as int);
            assert(t.subrange(6, t.len() as int) =~= cs@.subrange(start + 6, cs@.len() as int));
        }
        start = start + 6;
    }
    let mut out: Vec<char> = Vec::new();
    let mut i: usize = start;
    let ghost rest = cs@.subrange(start as int, cs@.len() as int);
    while i < cs.len()
        invariant
            start <= i <= cs@.len(),
            rest == cs@.subrange(start as int, cs@.len() as int),
            out@ == underscored(rest).subrange(0, i - start),
        decreases cs@.len() - i,
    {
        out.push(if cs[i] == ' ' { '_' } else { cs[i] });
        proof {
            assert(underscored(rest).subrange(0, i + 1 - start) =~= underscored(rest).subrange(
                0,
                i - start,
            ).push(underscored(rest)[i - start]));
        }
        i = i + 1;
    }
    proof {
        assert(underscored(rest).subrange(0, i - start) =~= underscored(rest));
    }
    Some(string_from_chars(out.as_slice()))
}

} // verus!
