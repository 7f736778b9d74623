//! The on-disk layout of the persist worker that does not touch the
//! disk: directory names derived from server names, the text of the
//! one-line files, and the search-history list.

use vstd::prelude::*;
use crate::persist::{SearchHistoryItem, SEARCH_HISTORY_LIMIT};
use crate::text::{push_char, str_chars, trim_text, trimmed};

verus! {

/// A path separator or NUL becomes `_`; every other character stays.
pub open spec fn clean_char(c: char) -> char {
    if c == '/' || c == '\\' || c == '\0' { '_' } else { c }
}

/// `s` without its leading dots.
pub open spec fn strip_dots(s: Seq<char>) -> Seq<char>
    decreases s.len(),
{
    if s.len() > 0 && s[0] == '.' { strip_dots(s.drop_first()) } else { s }
}

/// A server name made safe as one directory name: no separators, no
/// NUL, and no leading dot (so no hidden or parent directory).
pub open spec fn sanitised(s: Seq<char>) -> Seq<char> {
    strip_dots(s.map_values(|c: char| clean_char(c)))
}

pub fn sanitise(name: &str) -> (r: String)
    ensures
        r@ == sanitised(name@),
{
    let cs = str_chars(name);
    let ghost cleaned = name@.map_values(|c: char| clean_char(c));
    let mut start: usize = 0;
    assert(cleaned.subrange(0, cleaned.len() as int) =~= cleaned);
    while start < cs.len() && cs[start] == '.'
        invariant
            start <= cs@.len(),
            cs@ == name@,
            cleaned == name@.map_values(|c: char| clean_char(c)),
            strip_dots(cleaned) == strip_dots(cleaned.subrange(start as int, cleaned.len() as int)),
        decreases cs@.len() - start,
    {
        let ghost rest = cleaned.subrange(start as int, cleaned.len() as int);
        assert(rest.drop_first() =~= cleaned.subrange(start + 1, cleaned.len() as int));
        start = start + 1;
    }
    let ghost rest = cleaned.subrange(start as int, cleaned.len() as int);
    assert(rest.len() == 0 || rest[0] != '.');
    let mut out = String::new();
    let mut i: usize = start;
    while i < cs.len()
        invariant
            start <= i <= cs@.len(),
            cs@ == name@,
            cleaned == name@.map_values(|c: char| clean_char(c)),
            out@ == cleaned.subrange(start as int, i as int),
        decreases cs@.len() - i,
    {
        let c = cs[i];
        let d = if c == '/' || c == '\\' || c == '\0' { '_' } else { c };
        push_char(&mut out, d);
        i = i + 1;
        assert(out@ =~= cleaned.subrange(start as int, i as int));
    }
    out
}

/// The value a one-line file holds: its trimmed text, none if empty.
pub fn parse_stored_line(text: &str) -> (r: Option<String>)
    ensures
        trimmed(text@).len() == 0 <==> r is None,
        r matches Some(s) ==> s@ == trimmed(text@),
{
    let t = trim_text(text);
    if t.as_str().is_empty() {
        None
    } else {
        Some(t)
    }
}

/// An item that is not the search `query` of kind `search_type`.
pub open spec fn other_search(query: Seq<char>, search_type: Seq<char>) -> spec_fn(SearchHistoryItem) -> bool {
    |i: SearchHistoryItem| !(i.query@ == query && i.search_type@ == search_type)
}

/// The history after `item` is pushed: it comes first, any earlier
/// entry for the same search is dropped, and only the newest ten are
/// kept.
pub open spec fn history_after_push(items: Seq<SearchHistoryItem>, item: SearchHistoryItem) -> Seq<SearchHistoryItem> {
    let all = seq![item] + items.filter(other_search(item.query@, item.search_type@));
    if all.len() > SEARCH_HISTORY_LIMIT { all.take(SEARCH_HISTORY_LIMIT as int) } else { all }
}

impl SearchHistoryItem {
    pub fn duplicate(&self) -> (r: SearchHistoryItem)
        ensures
            r == *self,
    {
        SearchHistoryItem { query: self.query.clone(), search_type: self.search_type.clone(), ts: self.ts }
    }
}

pub fn push_search_history_items(items: &Vec<SearchHistoryItem>, item: SearchHistoryItem) -> (r: Vec<SearchHistoryItem>)
    ensures
        r@ == history_after_push(items@, item),
{
    let ghost p = other_search(item.query@, item.search_type@);
    let mut out: Vec<SearchHistoryItem> = Vec::new();
    let mut i: usize = 0;
    while i < items.len()
        invariant
            i <= items@.len(),
            p == other_search(item.query@, item.search_type@),
            out@ == items@.take(i as int).filter(p),
        decreases items@.len() - i,
    {
        proof {
            assert(items@.take(i + 1).drop_last() =~= items@.take(i as int));
            reveal(Seq::filter);
        }
        let same = crate::text::text_eq(&items[i].query, &item.query)
            && crate::text::text_eq(&items[i].search_type, &item.search_type);
        if !same {
            out.push(items[i].duplicate());
        }
        i = i + 1;
    }
    proof {
        assert(items@.take(items@.len() as int) =~= items@);
    }
    let ghost kept = out@;
    let mut all: Vec<SearchHistoryItem> = Vec::new();
    all.push(item);
    all.append(&mut out);
    assert(all@ =~= seq![item] + kept);
    all.truncate(SEARCH_HISTORY_LIMIT);
    all
}

/// The host name a pairing is stored under: without a trailing
/// `.local`.
pub open spec fn stored_host(h: Seq<char>) -> Seq<char> {
    let suffix = ".local"@;
    if h.len() >= suffix.len() && h.subrange(h.len() - suffix.len(), h.len() as int) == suffix {
        h.take(h.len() - suffix.len())
    } else {
        h
    }
}

pub fn strip_local_suffix(host: &str) -> (r: String)
    ensures
        r@ == stored_host(host@),
{
    let cs = str_chars(host);
    let suffix = str_chars(".local");
    let n = cs.len();
    let k = suffix.len();
    let mut keep = n;
    if n >= k {
        let mut j: usize = 0;
        let mut same = true;
        while j < k
            invariant
                n == cs@.len(),
                k == suffix@.len(),
                n >= k,
                j <= k,
                same == (forall|t: int| 0 <= t < j ==> cs@[n - k + t] == suffix@[t]),
            decreases k - j,
        {
            if cs[n - k + j] != suffix[j] {
                same = false;
            }
            j = j + 1;
        }
        if same {
            assert(cs@.subrange(n - k, n as int) =~= suffix@);
            keep = n - k;
        } else {
            assert(cs@.subrange(n - k, n as int) != suffix@) by {
                let t = choose|t: int| 0 <= t < k && cs@[n - k + t] != suffix@[t];
                assert(cs@.subrange(n - k, n as int)[t] == cs@[n - k + t]);
            }
        }
    }
    let mut out = String::new();
    let mut i: usize = 0;
    while i < keep
        invariant
            keep <= cs@.len(),
            i <= keep,
            out@ == cs@.take(i as int),
        decreases keep - i,
    {
        push_char(&mut out, cs[i]);
        i = i + 1;
        assert(out@ =~= cs@.take(i as int));
    }
    proof {
        reveal_strlit(".local");
        assert(suffix@ == ".local"@);
        if keep == n {
            assert(cs@.take(n as int) =~= cs@);
        }
    }
    out
}

} // verus!
