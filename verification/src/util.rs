//! Building URLs from named placeholders and query strings.
//!
//! A path such as `/repos/{owner}/{repo}` names the fields that fill it, and
//! the optional fields of a request become its query string.

use vstd::prelude::*;
use vstd::string::*;
use crate::naming::{wire_name, wire_name_of};
use crate::request::{base_uri, BASE_URI};
use crate::text::chars_of;

verus! {

/// Whether `pattern` occurs in `s` at position `i`.
pub open spec fn occurs_at(s: Seq<char>, pattern: Seq<char>, i: int) -> bool {
    0 <= i && i + pattern.len() <= s.len() && s.subrange(i, i + pattern.len()) == pattern
}

/// `s` from position `i` on, with every occurrence of `pattern` replaced by
/// `to`. Occurrences are found from left to right and do not overlap.
pub open spec fn replaced_from(s: Seq<char>, pattern: Seq<char>, to: Seq<char>, i: int) -> Seq<
    char,
>
    decreases s.len() - i,
{
    if i < 0 || i >= s.len() {
        Seq::empty()
    } else if pattern.len() > 0 && occurs_at(s, pattern, i) {
        to + replaced_from(s, pattern, to, i + pattern.len())
    } else {
        s.subrange(i, i + 1) + replaced_from(s, pattern, to, i + 1)
    }
}

/// `s` with every occurrence of `pattern` replaced by `to`. An empty
/// pattern occurs nowhere.
pub open spec fn replaced(s: Seq<char>, pattern: Seq<char>, to: Seq<char>) -> Seq<char> {
    replaced_from(s, pattern, to, 0)
}

fn matches_at(s: &Vec<char>, pattern: &Vec<char>, i: usize) -> (found: bool)
    requires
        i <= s.len(),
    ensures
        found == occurs_at(s@, pattern@, i as int),
{
    let m = pattern.len();
    if s.len() - i < m {
        return false;
    }
    let mut j: usize = 0;
    while j < m
        invariant
            m == pattern.len(),
            i + m <= s.len(),
            j <= m,
            forall|k: int| 0 <= k < j ==> s@[i + k] == pattern@[k],
        decreases m - j,
    {
        if s[i + j] != pattern[j] {
            assert(s@.subrange(i as int, i + m)[j as int] != pattern@[j as int]);
            return false;
        }
        j = j + 1;
    }
    assert(s@.subrange(i as int, i + m) =~= pattern@);
    true
}

/// Replaces every occurrence of `pattern` in `text` by `to`.
pub fn replace_all(text: &str, pattern: &str, to: &str) -> (out: String)
    ensures
        out@ == replaced(text@, pattern@, to@),
{
    let s = chars_of(text);
    let p = chars_of(pattern);
    let n = s.len();
    let m = p.len();
    let ghost t = text@;
    let mut out = String::new();
    let mut start: usize = 0;
    let mut i: usize = 0;
    assert(t.subrange(0, 0) =~= Seq::<char>::empty());
    while i < n
        invariant
            s@ == t,
            t == text@,
            p@ == pattern@,
            n == t.len(),
            m == p.len(),
            start <= i <= n,
            replaced(t, p@, to@) == out@ + t.subrange(start as int, i as int) + replaced_from(
                t,
                p@,
                to@,
                i as int,
            ),
        decreases n - i,
    {
        if m > 0 && matches_at(&s, &p, i) {
            out.append(text.substring_char(start, i));
            out.append(to);
            i = i + m;
            start = i;
            assert(t.subrange(start as int, i as int) =~= Seq::<char>::empty());
        } else {
            assert(t.subrange(start as int, i as int) + t.subrange(i as int, i + 1)
                =~= t.subrange(start as int, i + 1));
            i = i + 1;
        }
    }
    out.append(text.substring_char(start, n));
    out
}

/// The placeholder that stands for the field `name` in a path: its wire
/// name in braces.
pub open spec fn named_placeholder(name: Seq<char>) -> Seq<char> {
    "{"@ + wire_name_of(name) + "}"@
}

/// `path` after each of `parts`, in order, has replaced its placeholder.
pub open spec fn expanded(path: Seq<char>, parts: Seq<(Seq<char>, Seq<char>)>) -> Seq<char>
    decreases parts.len(),
{
    if parts.len() == 0 {
        path
    } else {
        replaced(
            expanded(path, parts.drop_last()),
            named_placeholder(parts.last().0),
            parts.last().1,
        )
    }
}

/// The views of a list of named values.
pub open spec fn part_views(parts: Seq<(&str, &str)>) -> Seq<(Seq<char>, Seq<char>)> {
    parts.map_values(|part: (&str, &str)| (part.0@, part.1@))
}

/// The URL of a path with named placeholders: the base URI, then `path`
/// with the placeholder of each part replaced by the part's value, one part
/// after the other.
pub fn api(path: &str, parts: &Vec<(&str, &str)>) -> (url: String)
    ensures
        url@ == base_uri() + expanded(path@, part_views(parts@)),
{
    let ghost all = part_views(parts@);
    let mut current = String::from_str(path);
    let mut k: usize = 0;
    assert(all.take(0) =~= Seq::<(Seq<char>, Seq<char>)>::empty());
    while k < parts.len()
        invariant
            all == part_views(parts@),
            k <= parts.len(),
            current@ == expanded(path@, all.take(k as int)),
        decreases parts.len() - k,
    {
        let name = wire_name(parts[k].0);
        let mut placeholder = String::from_str("{");
        placeholder.append(name.as_str());
        placeholder.append("}");
        current = replace_all(current.as_str(), placeholder.as_str(), parts[k].1);
        proof {
            assert(all.take(k + 1).drop_last() =~= all.take(k as int));
            assert(all.take(k + 1).last() == all[k as int]);
        }
        k = k + 1;
    }
    assert(all.take(parts.len() as int) =~= all);
    let mut url = String::from_str(BASE_URI);
    url.append(current.as_str());
    url
}

/// One query of a query string, with the separator that follows it.
pub open spec fn query_text(name: Seq<char>, value: Seq<char>) -> Seq<char> {
    wire_name_of(name) + "="@ + value + "&"@
}

/// The queries that are present, one after the other, each followed by its
/// separator.
pub open spec fn joined(queries: Seq<(Seq<char>, Option<Seq<char>>)>) -> Seq<char>
    decreases queries.len(),
{
    if queries.len() == 0 {
        Seq::empty()
    } else {
        joined(queries.drop_last()) + match queries.last().1 {
            Some(value) => query_text(queries.last().0, value),
            None => Seq::empty(),
        }
    }
}

/// `s` without the separators `&` at its end.
pub open spec fn trimmed(s: Seq<char>) -> Seq<char>
    decreases s.len(),
{
    if s.len() > 0 && s.last() == '&' {
        trimmed(s.drop_last())
    } else {
        s
    }
}

/// The views of a list of queries.
pub open spec fn query_views(queries: Seq<(&str, Option<&str>)>) -> Seq<
    (Seq<char>, Option<Seq<char>>),
> {
    queries.map_values(
        |query: (&str, Option<&str>)|
            (
                query.0@,
                match query.1 {
                    Some(value) => Some(value@),
                    None => None,
                },
            ),
    )
}

/// The query string of the given queries: each that is present as
/// `name=value`, in order, joined by `&`.
pub open spec fn query_string(queries: Seq<(Seq<char>, Option<Seq<char>>)>) -> Seq<char> {
    trimmed(joined(queries))
}

/// Removes the separators `&` at the end of `text`.
pub fn trim_separators(text: &str) -> (out: String)
    ensures
        out@ == trimmed(text@),
{
    let chars = chars_of(text);
    let ghost t = text@;
    let mut end: usize = chars.len();
    assert(t.take(end as int) =~= t);
    while end > 0 && chars[end - 1] == '&'
        invariant
            chars@ == t,
            end <= t.len(),
            trimmed(t.take(end as int)) == trimmed(t),
        decreases end,
    {
        assert(t.take(end as int).drop_last() =~= t.take(end - 1));
        end = end - 1;
    }
    String::from_str(text.substring_char(0, end))
}

/// The query string of the given queries.
pub fn queries(items: &Vec<(&str, Option<&str>)>) -> (out: String)
    ensures
        out@ == query_string(query_views(items@)),
{
    let ghost all = query_views(items@);
    let mut text = String::new();
    let mut k: usize = 0;
    assert(all.take(0) =~= Seq::<(Seq<char>, Option<Seq<char>>)>::empty());
    while k < items.len()
        invariant
            all == query_views(items@),
            k <= items.len(),
            text@ == joined(all.take(k as int)),
        decreases items.len() - k,
    {
        proof {
            assert(all.take(k + 1).drop_last() =~= all.take(k as int));
            assert(all.take(k + 1).last() == all[k as int]);
        }
        let ghost before = text@;
        match items[k].1 {
            Some(value) => {
                let name = wire_name(items[k].0);
                text.append(name.as_str());
                text.append("=");
                text.append(value);
                text.append("&");
                assert(text@ =~= before + query_text(items@[k as int].0@, value@));
            },
            None => {
                assert(text@ =~= before + Seq::<char>::empty());
            },
        }
        k = k + 1;
    }
    assert(all.take(items.len() as int) =~= all);
    trim_separators(text.as_str())
}

/// The URL with its query string, if there is one.
pub open spec fn with_queries(url: Seq<char>, queries: Seq<char>) -> Seq<char> {
    if queries.len() == 0 {
        url
    } else {
        url + "?"@ + queries
    }
}

/// The URL of a path with named placeholders, followed by `?` and the query
/// string where one of the queries is present.
pub fn uri(path: &str, parts: &Vec<(&str, &str)>, items: &Vec<(&str, Option<&str>)>) -> (url:
    String)
    ensures
        url@ == with_queries(
            base_uri() + expanded(path@, part_views(parts@)),
            query_string(query_views(items@)),
        ),
{
    let mut url = api(path, parts);
    let query = queries(items);
    if query.as_str().is_empty() {
        url
    } else {
        url.append("?");
        url.append(query.as_str());
        url
    }
}

} // verus!
