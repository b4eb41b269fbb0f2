//! Line selection: the lines of a text that contain a query, exactly or after
//! case folding. Results are slices of the searched text, in its line order.

use vstd::prelude::*;

use crate::config::Config;
use crate::text::{
    contains_str, has_substring, lines_of, lower_of, lowercase, split_lines, views_of,
};

verus! {

/// Holds of a line that contains `query` exactly.
pub open spec fn contains_query(query: Seq<char>) -> spec_fn(Seq<char>) -> bool {
    |l: Seq<char>| has_substring(l, query)
}

/// Holds of a line whose case-folded form contains `folded_query`.
pub open spec fn folded_contains_query(folded_query: Seq<char>) -> spec_fn(Seq<char>) -> bool {
    |l: Seq<char>| has_substring(lower_of(l), folded_query)
}

/// The lines of `contents` that contain `query` exactly, in order.
pub open spec fn sensitive_matches(query: Seq<char>, contents: Seq<char>) -> Seq<Seq<char>> {
    lines_of(contents).filter(contains_query(query))
}

/// The lines of `contents` whose case-folded form contains `folded_query`, in
/// order. The lines themselves are kept as they stand.
pub open spec fn folded_matches(folded_query: Seq<char>, contents: Seq<char>) -> Seq<
    Seq<char>,
> {
    lines_of(contents).filter(folded_contains_query(folded_query))
}

/// The lines of `contents` that contain `query` when both are case folded, in
/// order.
pub open spec fn insensitive_matches(query: Seq<char>, contents: Seq<char>) -> Seq<Seq<char>> {
    folded_matches(lower_of(query), contents)
}

/// The matches that a configuration selects in `contents`.
pub open spec fn config_matches(config: Config, contents: Seq<char>) -> Seq<Seq<char>> {
    if config.is_sensitive {
        sensitive_matches(config.query@, contents)
    } else {
        insensitive_matches(config.query@, contents)
    }
}

/// The empty text occurs in every text.
pub proof fn lemma_empty_substring(s: Seq<char>)
    ensures
        has_substring(s, Seq::<char>::empty()),
{
    let e = Seq::<char>::empty();
    assert(s.subrange(0, 0 + e.len() as int) =~= e);
}

/// Filtering by a predicate that holds of every element keeps the sequence.
proof fn lemma_filter_keeps_all(s: Seq<Seq<char>>, pred: spec_fn(Seq<char>) -> bool)
    requires
        forall|i: int| 0 <= i < s.len() ==> pred(#[trigger] s[i]),
    ensures
        s.filter(pred) == s,
    decreases s.len(),
{
    reveal(Seq::filter);
    if s.len() > 0 {
        lemma_filter_keeps_all(s.drop_last(), pred);
        assert(s.drop_last().push(s.last()) =~= s);
    }
}

/// Filtering the first `i + 1` elements adds the element at `i` to the
/// filtered first `i` elements exactly when it satisfies the predicate.
proof fn lemma_filter_take_step(s: Seq<Seq<char>>, pred: spec_fn(Seq<char>) -> bool, i: int)
    requires
        0 <= i < s.len(),
    ensures
        s.take(i + 1).filter(pred) == if pred(s[i]) {
            s.take(i).filter(pred).push(s[i])
        } else {
            s.take(i).filter(pred)
        },
{
    reveal(Seq::filter);
    assert(s.take(i + 1).drop_last() =~= s.take(i));
}

/// A search is a function of its query and text: two runs of the same search
/// on the same query and text select the same lines in the same order.
pub proof fn lemma_search_repeatable(
    sensitive: bool,
    query: Seq<char>,
    contents: Seq<char>,
    first: Seq<Seq<char>>,
    second: Seq<Seq<char>>,
)
    requires
        first == (if sensitive {
            sensitive_matches(query, contents)
        } else {
            insensitive_matches(query, contents)
        }),
        second == (if sensitive {
            sensitive_matches(query, contents)
        } else {
            insensitive_matches(query, contents)
        }),
    ensures
        first == second,
{
}

/// Selecting by a predicate a second time keeps every line of the first
/// selection.
proof fn lemma_filter_twice(s: Seq<Seq<char>>, pred: spec_fn(Seq<char>) -> bool)
    ensures
        s.filter(pred).filter(pred) == s.filter(pred),
{
    let f = s.filter(pred);
    assert forall|i: int| 0 <= i < f.len() implies pred(#[trigger] f[i]) by {
        s.lemma_filter_pred(pred, i);
    }
    lemma_filter_keeps_all(f, pred);
}

/// Matching lines are selected again, all of them and in order, when the
/// search runs over them once more.
pub proof fn lemma_matches_reselect(query: Seq<char>, contents: Seq<char>)
    ensures
        sensitive_matches(query, contents).filter(contains_query(query)) == sensitive_matches(
            query,
            contents,
        ),
        insensitive_matches(query, contents).filter(folded_contains_query(lower_of(query)))
            == insensitive_matches(query, contents),
{
    lemma_filter_twice(lines_of(contents), contains_query(query));
    lemma_filter_twice(lines_of(contents), folded_contains_query(lower_of(query)));
}

/// With the empty query every line matches, in order.
pub proof fn lemma_empty_query_matches_all(contents: Seq<char>)
    ensures
        sensitive_matches(Seq::<char>::empty(), contents) == lines_of(contents),
        folded_matches(Seq::<char>::empty(), contents) == lines_of(contents),
{
    let lines = lines_of(contents);
    let e = Seq::<char>::empty();
    assert forall|i: int| 0 <= i < lines.len() implies contains_query(e)(#[trigger] lines[i]) by {
        lemma_empty_substring(lines[i]);
    }
    lemma_filter_keeps_all(lines, contains_query(e));
    assert forall|i: int| 0 <= i < lines.len() implies folded_contains_query(e)(
        #[trigger] lines[i],
    ) by {
        lemma_empty_substring(lower_of(lines[i]));
    }
    lemma_filter_keeps_all(lines, folded_contains_query(e));
}

/// Selects the lines of `lines` for which `contains_str(line, query)` holds,
/// or, with `fold`, `contains_str(lowercase(line), query)`.
fn select_lines<'a>(lines: &Vec<&'a str>, query: &str, fold: bool) -> (r: Vec<&'a str>)
    ensures
        views_of(r@) == views_of(lines@).filter(
            if fold {
                folded_contains_query(query@)
            } else {
                contains_query(query@)
            },
        ),
{
    let ghost pred = if fold {
        folded_contains_query(query@)
    } else {
        contains_query(query@)
    };
    let ghost all = views_of(lines@);
    let mut res: Vec<&'a str> = Vec::new();
    let mut i: usize = 0;
    while i < lines.len()
        invariant
            i <= lines.len(),
            all == views_of(lines@),
            pred == (if fold {
                folded_contains_query(query@)
            } else {
                contains_query(query@)
            }),
            views_of(res@) == all.take(i as int).filter(pred),
        decreases lines.len() - i,
    {
        let line = lines[i];
        let keep = if fold {
            let folded = lowercase(line);
            let k = contains_str(folded.as_str(), query);
            assert(pred == folded_contains_query(query@));
            assert(k == pred(line@));
            k
        } else {
            let k = contains_str(line, query);
            assert(pred == contains_query(query@));
            assert(k == pred(line@));
            k
        };
        proof {
            lemma_filter_take_step(all, pred, i as int);
            assert(all[i as int] == line@);
        }
        if keep {
            res.push(line);
            assert(views_of(res@) =~= all.take(i as int).filter(pred).push(line@));
        }
        i = i + 1;
    }
    assert(all.take(lines.len() as int) =~= all);
    res
}

/// The lines of `contents` that contain `query`, compared character for
/// character, in their order in `contents`. Every line is a slice of
/// `contents`, without its line terminator. The empty query selects every line.
pub fn search_sensitive<'a>(query: &str, contents: &'a str) -> (r: Vec<&'a str>)
    ensures
        views_of(r@) == sensitive_matches(query@, contents@),
        query@.len() == 0 ==> views_of(r@) == lines_of(contents@),
{
    let lines = split_lines(contents);
    let r = select_lines(&lines, query, false);
    proof {
        if query@.len() == 0 {
            assert(query@ =~= Seq::<char>::empty());
            lemma_empty_query_matches_all(contents@);
        }
    }
    r
}

/// The lines of `contents` whose case-folded form contains `folded_query`, in
/// their order in `contents`. `folded_query` is taken as already folded; the
/// lines are returned as they stand in `contents`, not folded.
pub fn search_folded<'a>(folded_query: &str, contents: &'a str) -> (r: Vec<&'a str>)
    ensures
        views_of(r@) == folded_matches(folded_query@, contents@),
        folded_query@.len() == 0 ==> views_of(r@) == lines_of(contents@),
{
    let lines = split_lines(contents);
    let r = select_lines(&lines, folded_query, true);
    proof {
        if folded_query@.len() == 0 {
            assert(folded_query@ =~= Seq::<char>::empty());
            lemma_empty_query_matches_all(contents@);
        }
    }
    r
}

/// The lines of `contents` that contain `query` when both are case folded, in
/// their order in `contents`. The lines are returned as they stand in
/// `contents`, with their original case. The empty query selects every line.
pub fn search_insensitive<'a>(query: &str, contents: &'a str) -> (r: Vec<&'a str>)
    ensures
        views_of(r@) == insensitive_matches(query@, contents@),
        query@.len() == 0 ==> views_of(r@) == lines_of(contents@),
{
    let folded = lowercase(query);
    search_folded(folded.as_str(), contents)
}

/// The lines of `contents` that `config` selects: exact matches of its query
/// when it is case sensitive, case-folded matches otherwise.
pub fn search<'a>(config: &Config, contents: &'a str) -> (r: Vec<&'a str>)
    ensures
        views_of(r@) == config_matches(*config, contents@),
{
    if config.is_sensitive {
        search_sensitive(config.query.as_str(), contents)
    } else {
        search_insensitive(config.query.as_str(), contents)
    }
}

} // verus!
