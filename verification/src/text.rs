//! Text primitives shared by the configuration and rewrite rules.

use vstd::prelude::*;
use vstd::string::StringExecFns;

verus! {

/// The text of an optional string.
pub open spec fn opt_text(o: Option<String>) -> Option<Seq<char>> {
    match o {
        Some(s) => Some(s@),
        None => None,
    }
}

/// The texts of a list of strings.
pub open spec fn texts(v: Seq<String>) -> Seq<Seq<char>> {
    v.map_values(|s: String| s@)
}

/// `pat` occurs in `s` starting at position `i`.
pub open spec fn occurs_at(s: Seq<char>, pat: Seq<char>, i: int) -> bool {
    0 <= i && i + pat.len() <= s.len() && s.subrange(i, i + pat.len()) == pat
}

/// `pat` occurs somewhere in `s` as a contiguous run of characters.
pub open spec fn has_substring(s: Seq<char>, pat: Seq<char>) -> bool {
    exists|i: int| occurs_at(s, pat, i)
}

/// Substring test.
///
/// Trusted: calls `str::contains` with a string pattern, which std documents
/// as returning `true` exactly when the pattern matches a sub-slice of the
/// string.
#[verifier::external_body]
pub(crate) fn contains(haystack: &str, needle: &str) -> (found: bool)
    ensures
        found == has_substring(haystack@, needle@),
{
    haystack.contains(needle)
}

/// Text equality on string slices.
pub fn same_text(a: &str, b: &str) -> (same: bool)
    ensures
        same == (a@ == b@),
{
    let x = a.to_owned();
    let y = b.to_owned();
    x == y
}

/// `s` without its longest suffix made of copies of `c`.
pub open spec fn trimmed_end(s: Seq<char>, c: char) -> Seq<char>
    decreases s.len(),
{
    if s.len() > 0 && s.last() == c {
        trimmed_end(s.drop_last(), c)
    } else {
        s
    }
}

/// Removes every trailing copy of `c`.
///
/// Trusted: calls `str::trim_end_matches` with a character pattern, which std
/// documents as returning the slice with all suffixes that match the pattern
/// repeatedly removed.
#[verifier::external_body]
pub(crate) fn trim_end<'a>(s: &'a str, c: char) -> (trimmed: &'a str)
    ensures
        trimmed@ == trimmed_end(s@, c),
{
    s.trim_end_matches(c)
}

/// The concatenation of two texts.
pub fn conjoin(a: &str, b: &str) -> (joined: String)
    ensures
        joined@ == a@ + b@,
{
    let mut joined = a.to_owned();
    joined.append(b);
    joined
}

/// The texts of `parts` in order, with `sep` between neighbours.
pub open spec fn joined(parts: Seq<Seq<char>>, sep: Seq<char>) -> Seq<char>
    decreases parts.len(),
{
    if parts.len() == 0 {
        Seq::empty()
    } else if parts.len() == 1 {
        parts[0]
    } else {
        joined(parts.drop_last(), sep) + sep + parts.last()
    }
}

/// Joins texts with a separator.
pub fn join(parts: &Vec<String>, sep: &str) -> (text: String)
    ensures
        text@ == joined(texts(parts@), sep@),
{
    let ghost all = texts(parts@);
    let mut text = String::new();
    let mut i: usize = 0;
    while i < parts.len()
        invariant
            i <= parts.len(),
            all == texts(parts@),
            text@ == joined(all.take(i as int), sep@),
        decreases parts.len() - i,
    {
        if i > 0 {
            text.append(sep);
        }
        text.append(parts[i].as_str());
        proof {
            assert(all.take(i + 1).drop_last() =~= all.take(i as int));
            assert(all.take(i + 1).last() == parts[i as int]@);
        }
        i += 1;
    }
    assert(all.take(i as int) =~= all);
    text
}

/// Position of the first entry of `ids` that equals `id`, if there is one.
pub open spec fn first_match(ids: Seq<Seq<char>>, id: Seq<char>) -> Option<int> {
    if exists|i: int| 0 <= i < ids.len() && ids[i] == id {
        Some(
            choose|i: int|
                0 <= i < ids.len() && ids[i] == id && forall|j: int| 0 <= j < i ==> ids[j] != id,
        )
    } else {
        None
    }
}

/// An index whose entry equals `id`, with no equal entry before it, is the
/// first match.
pub proof fn lemma_first_match(ids: Seq<Seq<char>>, id: Seq<char>, i: int)
    requires
        0 <= i < ids.len(),
        ids[i] == id,
        forall|j: int| 0 <= j < i ==> ids[j] != id,
    ensures
        first_match(ids, id) == Some(i),
{
    let c = choose|c: int|
        0 <= c < ids.len() && ids[c] == id && forall|j: int| 0 <= j < c ==> ids[j] != id;
    assert(c == i) by {
        if c < i {
            assert(ids[c] != id);
        }
        if i < c {
            assert(ids[i] != id);
        }
    }
}

/// An optional machine index as a mathematical one.
pub open spec fn opt_index(i: Option<usize>) -> Option<int> {
    match i {
        Some(i) => Some(i as int),
        None => None,
    }
}

/// Finds the first entry of `list` that equals `wanted`.
pub fn position_of(list: &Vec<String>, wanted: &str) -> (found: Option<usize>)
    ensures
        opt_index(found) == first_match(texts(list@), wanted@),
        found matches Some(i) ==> i < list.len() && list[i as int]@ == wanted@,
{
    let target = wanted.to_owned();
    let ghost all = texts(list@);
    let mut i: usize = 0;
    while i < list.len()
        invariant
            i <= list.len(),
            target@ == wanted@,
            all == texts(list@),
            forall|j: int| 0 <= j < i ==> all[j] != wanted@,
        decreases list.len() - i,
    {
        if list[i] == target {
            proof {
                lemma_first_match(all, wanted@, i as int);
            }
            return Some(i);
        }
        i += 1;
    }
    None
}

} // verus!
