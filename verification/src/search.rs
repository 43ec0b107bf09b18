//! The search filter: which records a query lets through.
//!
//! A query is matched without regard to case against a record's path, its
//! branch name where it has one, and the summary of its HEAD commit. The empty
//! query lets every record through.

use crate::model::{Worktree, WorktreeView};
use crate::text::{chars_of, contains_chars, is_substring, lowercase, to_lowercase};
use vstd::prelude::*;

verus! {

/// `needle`, compared without regard to case, is a contiguous part of `text`.
pub open spec fn contains_ignoring_case(text: Seq<char>, needle: Seq<char>) -> bool {
    is_substring(lowercase(text), lowercase(needle))
}

/// Whether a record passes the query `query`, given the lower-case forms of
/// the query and of the record's path, branch and commit summary: the empty
/// query lets every record through, and any other query those that hold its
/// lower-case form in one of the three.
pub open spec fn passes(
    query: Seq<char>,
    needle: Seq<char>,
    path: Seq<char>,
    branch: Option<Seq<char>>,
    summary: Seq<char>,
) -> bool {
    ||| query.len() == 0
    ||| is_substring(path, needle)
    ||| branch matches Some(b) && is_substring(b, needle)
    ||| is_substring(summary, needle)
}

/// The lower-case form of an optional text.
pub open spec fn lowercase_of(text: Option<Seq<char>>) -> Option<Seq<char>> {
    match text {
        Some(t) => Some(lowercase(t)),
        None => None,
    }
}

/// Whether the record `w` passes the query `query`: the query is matched
/// without regard to case against the path, the branch name where there is
/// one, and the commit summary.
pub open spec fn matches_query(w: WorktreeView, query: Seq<char>) -> bool {
    passes(
        query,
        lowercase(query),
        lowercase(w.path),
        lowercase_of(w.branch),
        lowercase(w.commit_message),
    )
}

/// The positions of `order`, in their order, whose records pass `query`.
pub open spec fn shown(ws: Seq<WorktreeView>, order: Seq<usize>, query: Seq<char>) -> Seq<usize>
    decreases order.len(),
{
    if order.len() == 0 {
        Seq::empty()
    } else {
        let rest = shown(ws, order.drop_last(), query);
        if matches_query(ws[order.last() as int], query) {
            rest.push(order.last())
        } else {
            rest
        }
    }
}

/// The empty query hides nothing.
pub proof fn lemma_empty_query_shows_all(ws: Seq<WorktreeView>, order: Seq<usize>)
    ensures
        shown(ws, order, Seq::empty()) == order,
    decreases order.len(),
{
    if order.len() > 0 {
        lemma_empty_query_shows_all(ws, order.drop_last());
        assert(order.drop_last().push(order.last()) =~= order);
    }
}

/// What passes a query stands in the order it was taken from, no position
/// more than once where the order holds none twice, and is what matches.
pub proof fn lemma_shown_is_selection(ws: Seq<WorktreeView>, order: Seq<usize>, query: Seq<char>)
    ensures
        shown(ws, order, query).len() <= order.len(),
        forall|p: int|
            0 <= p < shown(ws, order, query).len() ==> {
                &&& order.contains(#[trigger] shown(ws, order, query)[p])
                &&& matches_query(ws[shown(ws, order, query)[p] as int], query)
            },
        forall|q: int|
            0 <= q < order.len() && matches_query(ws[order[q] as int], query) ==> shown(
                ws,
                order,
                query,
            ).contains(#[trigger] order[q]),
    decreases order.len(),
{
    if order.len() > 0 {
        let head = order.drop_last();
        let rest = shown(ws, head, query);
        let all = shown(ws, order, query);
        lemma_shown_is_selection(ws, head, query);
        assert forall|p: int| 0 <= p < all.len() implies {
            &&& order.contains(#[trigger] all[p])
            &&& matches_query(ws[all[p] as int], query)
        } by {
            if p < rest.len() {
                assert(all[p] == rest[p]);
                assert(head.contains(rest[p]));
                let q = choose|q: int| 0 <= q < head.len() && head[q] == rest[p];
                assert(order[q] == rest[p]);
            } else {
                assert(all[p] == order[order.len() - 1]);
            }
        }
        assert forall|q: int|
            0 <= q < order.len() && matches_query(ws[order[q] as int], query) implies all.contains(
            #[trigger] order[q],
        ) by {
            if q < head.len() {
                assert(head[q] == order[q]);
                assert(rest.contains(head[q]));
                let p = choose|p: int| 0 <= p < rest.len() && rest[p] == head[q];
                assert(all[p] == order[q]);
            } else {
                assert(all[all.len() - 1] == order[q]);
            }
        }
    }
}

/// Whether a record passes the query `query`, given the lower-case forms of
/// the query (`needle`) and of the record's path, branch and commit summary.
pub fn passes_lowered(
    query: &str,
    needle: &str,
    path: &str,
    branch: &Option<String>,
    summary: &str,
) -> (r: bool)
    ensures
        r == passes(query@, needle@, path@, branch.deep_view(), summary@),
{
    if query.unicode_len() == 0 {
        return true;
    }
    let wanted = chars_of(needle);
    if contains_chars(&chars_of(path), &wanted) {
        return true;
    }
    let in_branch = match branch {
        Some(b) => contains_chars(&chars_of(b.as_str()), &wanted),
        None => false,
    };
    if in_branch {
        return true;
    }
    contains_chars(&chars_of(summary), &wanted)
}

/// Whether the record passes the query whose lower-case form is `needle`.
fn record_matches(w: &Worktree, query: &str, needle: &str) -> (r: bool)
    requires
        needle@ == lowercase(query@),
    ensures
        r == matches_query(w@, query@),
{
    if query.unicode_len() == 0 {
        return true;
    }
    let path = to_lowercase(w.path.as_str());
    let branch = match &w.branch {
        Some(b) => Some(to_lowercase(b.as_str())),
        None => None,
    };
    let summary = to_lowercase(w.commit_message.as_str());
    passes_lowered(query, needle, path.as_str(), &branch, summary.as_str())
}

/// The positions of `order`, in their order, whose records pass `query`.
pub(crate) fn filter_indices(worktrees: &Vec<Worktree>, order: &Vec<usize>, query: &str) -> (r: Vec<usize>)
    requires
        forall|p: int| 0 <= p < order.len() ==> #[trigger] order[p] < worktrees.len(),
    ensures
        r@ == shown(worktrees.deep_view(), order@, query@),
{
    let ghost ws = worktrees.deep_view();
    let needle = to_lowercase(query);
    let mut r: Vec<usize> = Vec::new();
    let mut k: usize = 0;
    while k < order.len()
        invariant
            k <= order.len(),
            ws == worktrees.deep_view(),
            needle@ == lowercase(query@),
            forall|p: int| 0 <= p < order.len() ==> #[trigger] order[p] < worktrees.len(),
            r@ == shown(ws, order@.take(k as int), query@),
        decreases order.len() - k,
    {
        let i: usize = order[k];
        proof {
            assert(order@.take(k + 1).drop_last() =~= order@.take(k as int));
            assert(order@.take(k + 1).last() == i);
            assert(ws[i as int] == worktrees[i as int]@);
        }
        if record_matches(&worktrees[i], query, needle.as_str()) {
            r.push(i);
        }
        k += 1;
    }
    assert(order@.take(order.len() as int) =~= order@);
    r
}

} // verus!
