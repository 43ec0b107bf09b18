//! The view index: the collection of records together with the order in
//! which they are shown, the part of them that passes the search query, and
//! the selection.
//!
//! The collection itself is never reordered. The display order and the
//! filtered list are lists of positions in it, and the selection is a position
//! in the filtered list. What is selected is a record: when query or sort
//! order change, the selection stays on it, and when the collection is
//! replaced, the selection follows it by branch and path.

use crate::model::{SortOrder, Worktree, WorktreeView};
use crate::ordering::{
    display_order, is_display_order, lemma_display_order_exists, lemma_display_order_unique,
    lemma_main_is_first, sorted_indices,
};
use crate::search::{
    filter_indices, lemma_empty_query_shows_all, lemma_shown_is_selection, matches_query, shown,
};
use vstd::prelude::*;

verus! {

/// What a [`ViewIndex`] holds.
pub ghost struct IndexView {
    /// The records, in the order in which they came.
    pub worktrees: Seq<WorktreeView>,
    pub sort_order: SortOrder,
    /// The search query; empty where no search is on.
    pub query: Seq<char>,
    /// All positions of `worktrees` in display order.
    pub order: Seq<usize>,
    /// The positions of `order` whose records pass the query.
    pub filtered: Seq<usize>,
    /// The selected position of `filtered`.
    pub selected: Option<usize>,
}

/// The order and the filtered list are what the records, the sort order and
/// the query make them, and the selection lies within the filtered list.
pub open spec fn well_formed(v: IndexView) -> bool {
    &&& is_display_order(v.worktrees, v.sort_order, v.order)
    &&& v.filtered == shown(v.worktrees, v.order, v.query)
    &&& v.selected matches Some(p) ==> p < v.filtered.len()
}

/// The record under the selection.
pub open spec fn selected_record(v: IndexView) -> Option<WorktreeView> {
    match v.selected {
        Some(p) => Some(v.worktrees[v.filtered[p as int] as int]),
        None => None,
    }
}

/// The main worktree's record: the first in display order, if that is a main
/// worktree.
pub open spec fn shown_main(v: IndexView) -> Option<WorktreeView> {
    if v.order.len() > 0 && v.worktrees[v.order[0] as int].is_main {
        Some(v.worktrees[v.order[0] as int])
    } else {
        None
    }
}

/// The first position of `list`, from `from` on, whose record is on the
/// branch `name`.
pub open spec fn find_branch(
    ws: Seq<WorktreeView>,
    list: Seq<usize>,
    name: Seq<char>,
    from: int,
) -> Option<usize>
    decreases list.len() - from,
{
    if from < 0 || from >= list.len() {
        None
    } else if ws[list[from] as int].branch == Some(name) {
        Some(from as usize)
    } else {
        find_branch(ws, list, name, from + 1)
    }
}

/// The first position of `list`, from `from` on, whose record has the path
/// `path`.
pub open spec fn find_path(
    ws: Seq<WorktreeView>,
    list: Seq<usize>,
    path: Seq<char>,
    from: int,
) -> Option<usize>
    decreases list.len() - from,
{
    if from < 0 || from >= list.len() {
        None
    } else if ws[list[from] as int].path == path {
        Some(from as usize)
    } else {
        find_path(ws, list, path, from + 1)
    }
}

/// The first position of `list`, from `from` on, that holds the record at
/// position `record` of the collection.
pub open spec fn find_record(list: Seq<usize>, record: usize, from: int) -> Option<usize>
    decreases list.len() - from,
{
    if from < 0 || from >= list.len() {
        None
    } else if list[from] == record {
        Some(from as usize)
    } else {
        find_record(list, record, from + 1)
    }
}

/// The record under the selection, as its position in the collection.
pub open spec fn selected_index(v: IndexView) -> Option<usize> {
    match v.selected {
        Some(p) => Some(v.filtered[p as int]),
        None => None,
    }
}

/// The selection after the filtered list of a collection has become
/// `filtered`, the record at position `record` of the collection having been
/// selected before: on that record where the list still shows it, at the
/// place it has there; where the list does not show it, or nothing was
/// selected, on the first entry, or on none in an empty list.
pub open spec fn kept_on_record(record: Option<usize>, filtered: Seq<usize>) -> Option<usize> {
    let found = match record {
        Some(i) => find_record(filtered, i, 0),
        None => None,
    };
    if found is Some {
        found
    } else if filtered.len() > 0 {
        Some(0)
    } else {
        None
    }
}

/// The selection after the collection was replaced: on the record of the
/// branch that was selected before; where there is none, on the record of the
/// path that was selected before; where there is none either, on the position
/// selected before if the list still has it, else on the first entry, or on
/// none in an empty list.
pub open spec fn reselected(
    before: Option<WorktreeView>,
    position: Option<usize>,
    ws: Seq<WorktreeView>,
    filtered: Seq<usize>,
) -> Option<usize> {
    let by_branch = match before {
        Some(w) => match w.branch {
            Some(name) => find_branch(ws, filtered, name, 0),
            None => None,
        },
        None => None,
    };
    let by_path = match before {
        Some(w) => find_path(ws, filtered, w.path, 0),
        None => None,
    };
    if by_branch is Some {
        by_branch
    } else if by_path is Some {
        by_path
    } else {
        match position {
            Some(p) if p < filtered.len() => Some(p),
            _ => if filtered.len() > 0 {
                Some(0)
            } else {
                None
            },
        }
    }
}

/// Where the selection lands after a move by `delta` from `current` in a
/// list of `len` entries: never past either end.
pub open spec fn moved(current: int, delta: int, len: int) -> int {
    if delta > 0 {
        if current + delta < len - 1 {
            current + delta
        } else {
            len - 1
        }
    } else {
        if current + delta > 0 {
            current + delta
        } else {
            0
        }
    }
}

/// The index `v` with the selection moved by `delta` entries, down for a
/// positive `delta` and up for a negative one, never past either end of the
/// filtered list. With no selection the move starts from the first entry.
/// Nothing moves in an empty list.
pub open spec fn selection_moved(v: IndexView, delta: int) -> IndexView {
    IndexView {
        selected: if v.filtered.len() == 0 {
            v.selected
        } else {
            Some(
                moved(
                    match v.selected {
                        Some(p) => p as int,
                        None => 0,
                    },
                    delta,
                    v.filtered.len() as int,
                ) as usize,
            )
        },
        ..v
    }
}

/// The index `v` with the first entry of the filtered list selected, if
/// there is one.
pub open spec fn first_selected(v: IndexView) -> IndexView {
    IndexView {
        selected: if v.filtered.len() > 0 {
            Some(0usize)
        } else {
            v.selected
        },
        ..v
    }
}

/// The index `v` with the last entry of the filtered list selected, if there
/// is one.
pub open spec fn last_selected(v: IndexView) -> IndexView {
    IndexView {
        selected: if v.filtered.len() > 0 {
            Some((v.filtered.len() - 1) as usize)
        } else {
            v.selected
        },
        ..v
    }
}

/// The index `v` with the entry at `position` of the filtered list selected;
/// unchanged where the list has no such entry.
pub open spec fn position_selected(v: IndexView, position: usize) -> IndexView {
    IndexView {
        selected: if position < v.filtered.len() {
            Some(position)
        } else {
            v.selected
        },
        ..v
    }
}

/// The index `v` with the first shown record of path `path` selected;
/// unchanged where no shown record has that path.
pub open spec fn path_selected(v: IndexView, path: Seq<char>) -> IndexView {
    IndexView {
        selected: match find_path(v.worktrees, v.filtered, path, 0) {
            Some(p) => Some(p),
            None => v.selected,
        },
        ..v
    }
}

/// The index that `before` becomes when its collection is replaced by `ws`,
/// as a refresh does: sort order and query stay, order and filtered list are
/// made anew, and the selection follows the record that was selected, by its
/// branch, else by its path (see [`reselected`]), not the position it had.
pub open spec fn replaced(before: IndexView, ws: Seq<WorktreeView>) -> IndexView {
    let order = display_order(ws, before.sort_order);
    let filtered = shown(ws, order, before.query);
    IndexView {
        worktrees: ws,
        order,
        filtered,
        selected: reselected(selected_record(before), before.selected, ws, filtered),
        ..before
    }
}

/// The index that `before` becomes when the search query is set to `query`:
/// records and order stay, the filtered list is made anew, and the selection
/// stays on the selected record where that passes the new query, and else
/// goes to the first entry, or to none where nothing passes (see
/// [`kept_on_record`]).
pub open spec fn queried(before: IndexView, query: Seq<char>) -> IndexView {
    let filtered = shown(before.worktrees, before.order, query);
    IndexView {
        query,
        filtered,
        selected: kept_on_record(selected_index(before), filtered),
        ..before
    }
}

/// The index that `before` becomes when the user goes on to the next sort
/// order: records and query stay, order and filtered list are made anew, and
/// the selection stays on the selected record (see [`kept_on_record`]).
pub open spec fn sort_cycled(before: IndexView) -> IndexView {
    let order = display_order(before.worktrees, before.sort_order.successor());
    let filtered = shown(before.worktrees, order, before.query);
    IndexView {
        sort_order: before.sort_order.successor(),
        order,
        filtered,
        selected: kept_on_record(selected_index(before), filtered),
        ..before
    }
}

/// A well-formed index is fixed by its records, its sort order, its query
/// and its selection: two such indexes that agree in these are the same.
pub proof fn lemma_index_determined(a: IndexView, b: IndexView)
    requires
        well_formed(a),
        well_formed(b),
        a.worktrees == b.worktrees,
        a.sort_order == b.sort_order,
        a.query == b.query,
        a.selected == b.selected,
    ensures
        a == b,
{
    lemma_display_order_unique(a.worktrees, a.sort_order, a.order, b.order);
}

/// A search finds a position only where the list holds the record that was
/// looked for, and finds the first such position.
pub proof fn lemma_find_record(list: Seq<usize>, record: usize, from: int)
    requires
        0 <= from,
        list.len() <= usize::MAX,
    ensures
        match find_record(list, record, from) {
            Some(p) => {
                &&& from <= p < list.len()
                &&& list[p as int] == record
                &&& forall|q: int| from <= q < p ==> #[trigger] list[q] != record
            },
            None => forall|q: int| from <= q < list.len() ==> #[trigger] list[q] != record,
        },
    decreases list.len() - from,
{
    if from < list.len() && list[from] != record {
        lemma_find_record(list, record, from + 1);
    }
}

/// Whatever the collection is replaced by, the index is well formed
/// afterwards.
pub proof fn lemma_replaced(before: IndexView, ws: Seq<WorktreeView>)
    requires
        ws.len() <= usize::MAX,
    ensures
        well_formed(replaced(before, ws)),
{
    let after = replaced(before, ws);
    lemma_display_order_exists(ws, before.sort_order);
    lemma_shown_is_selection(ws, after.order, before.query);
    let selected = selected_record(before);
    if selected is Some {
        lemma_find_path(ws, after.filtered, selected.unwrap().path, 0);
        if selected.unwrap().branch is Some {
            lemma_find_branch(ws, after.filtered, selected.unwrap().branch.unwrap(), 0);
        }
    }
}

/// Whatever the query is set to, a well-formed index is well formed
/// afterwards.
pub proof fn lemma_queried(before: IndexView, query: Seq<char>)
    requires
        well_formed(before),
        before.worktrees.len() <= usize::MAX,
    ensures
        well_formed(queried(before, query)),
{
    let after = queried(before, query);
    lemma_shown_is_selection(before.worktrees, before.order, query);
    if selected_index(before) is Some {
        lemma_find_record(after.filtered, selected_index(before).unwrap(), 0);
    }
}

/// Under the next sort order a well-formed index is well formed again.
pub proof fn lemma_sort_cycled(before: IndexView)
    requires
        well_formed(before),
        before.worktrees.len() <= usize::MAX,
    ensures
        well_formed(sort_cycled(before)),
{
    let after = sort_cycled(before);
    lemma_display_order_exists(before.worktrees, before.sort_order.successor());
    lemma_shown_is_selection(before.worktrees, after.order, before.query);
    if selected_index(before) is Some {
        lemma_find_record(after.filtered, selected_index(before).unwrap(), 0);
    }
}

/// The selection stays on the record across a change of query: where the
/// selected record passes the new query, it is the selected record
/// afterwards, whatever place it has then; where it does not, the first shown
/// record is.
pub proof fn lemma_selection_stays_on_record(before: IndexView, query: Seq<char>)
    requires
        well_formed(before),
        before.worktrees.len() <= usize::MAX,
        before.selected is Some,
    ensures
        matches_query(before.worktrees[selected_index(before).unwrap() as int], query)
            ==> selected_index(queried(before, query)) == selected_index(before),
        !matches_query(before.worktrees[selected_index(before).unwrap() as int], query)
            ==> queried(before, query).selected == (if queried(before, query).filtered.len() > 0 {
            Some(0usize)
        } else {
            None
        }),
{
    let after = queried(before, query);
    let record = selected_index(before).unwrap();
    lemma_shown_is_selection(before.worktrees, before.order, query);
    lemma_shown_is_selection(before.worktrees, before.order, before.query);
    lemma_find_record(after.filtered, record, 0);
    assert(before.order.contains(before.filtered[before.selected.unwrap() as int]));
    if matches_query(before.worktrees[record as int], query) {
        let q = choose|q: int| 0 <= q < before.order.len() && before.order[q] == record;
        assert(after.filtered.contains(before.order[q]));
    } else {
        if find_record(after.filtered, record, 0) is Some {
            let p = find_record(after.filtered, record, 0).unwrap();
            assert(matches_query(before.worktrees[after.filtered[p as int] as int], query));
        }
    }
}

/// A search finds a position only where the record there is what was looked
/// for, and finds the first such position.
pub proof fn lemma_find_branch(ws: Seq<WorktreeView>, list: Seq<usize>, name: Seq<char>, from: int)
    requires
        0 <= from,
        list.len() <= usize::MAX,
    ensures
        match find_branch(ws, list, name, from) {
            Some(p) => {
                &&& from <= p < list.len()
                &&& ws[list[p as int] as int].branch == Some(name)
                &&& forall|q: int| from <= q < p ==> ws[#[trigger] list[q] as int].branch != Some(name)
            },
            None => forall|q: int|
                from <= q < list.len() ==> ws[#[trigger] list[q] as int].branch != Some(name),
        },
    decreases list.len() - from,
{
    if from < list.len() && ws[list[from] as int].branch != Some(name) {
        lemma_find_branch(ws, list, name, from + 1);
    }
}

/// A search finds a position only where the record there is what was looked
/// for, and finds the first such position.
pub proof fn lemma_find_path(ws: Seq<WorktreeView>, list: Seq<usize>, path: Seq<char>, from: int)
    requires
        0 <= from,
        list.len() <= usize::MAX,
    ensures
        match find_path(ws, list, path, from) {
            Some(p) => {
                &&& from <= p < list.len()
                &&& ws[list[p as int] as int].path == path
                &&& forall|q: int| from <= q < p ==> ws[#[trigger] list[q] as int].path != path
            },
            None => forall|q: int| from <= q < list.len() ==> ws[#[trigger] list[q] as int].path != path,
        },
    decreases list.len() - from,
{
    if from < list.len() && ws[list[from] as int].path != path {
        lemma_find_path(ws, list, path, from + 1);
    }
}

/// The collection of records with its display order, its filtered list and
/// its selection.
#[derive(Debug)]
pub struct ViewIndex {
    worktrees: Vec<Worktree>,
    sort_order: SortOrder,
    query: String,
    order: Vec<usize>,
    filtered: Vec<usize>,
    selected: Option<usize>,
}

impl View for ViewIndex {
    type V = IndexView;

    closed spec fn view(&self) -> IndexView {
        IndexView {
            worktrees: self.worktrees.deep_view(),
            sort_order: self.sort_order,
            query: self.query@,
            order: self.order@,
            filtered: self.filtered@,
            selected: self.selected,
        }
    }
}

/// Whether the optional text `t` is the text `name`.
fn is_text(t: &Option<String>, name: &String) -> (r: bool)
    ensures
        r == (t.deep_view() == Some(name@)),
{
    match t {
        Some(s) => *s == *name,
        None => false,
    }
}

/// The first position of `list` whose record is on the branch `name`.
fn position_of_branch(worktrees: &Vec<Worktree>, list: &Vec<usize>, name: &String) -> (r: Option<
    usize,
>)
    requires
        forall|p: int| 0 <= p < list.len() ==> #[trigger] list[p] < worktrees.len(),
    ensures
        r == find_branch(worktrees.deep_view(), list@, name@, 0),
{
    let ghost ws = worktrees.deep_view();
    let mut i: usize = 0;
    while i < list.len()
        invariant
            i <= list.len(),
            ws == worktrees.deep_view(),
            forall|p: int| 0 <= p < list.len() ==> #[trigger] list[p] < worktrees.len(),
            find_branch(ws, list@, name@, 0) == find_branch(ws, list@, name@, i as int),
        decreases list.len() - i,
    {
        assert(ws[list[i as int] as int] == worktrees[list[i as int] as int]@);
        if is_text(&worktrees[list[i]].branch, name) {
            return Some(i);
        }
        i += 1;
    }
    None
}

/// The first position of `list` whose record has the path `path`.
fn position_of_path(worktrees: &Vec<Worktree>, list: &Vec<usize>, path: &String) -> (r: Option<
    usize,
>)
    requires
        forall|p: int| 0 <= p < list.len() ==> #[trigger] list[p] < worktrees.len(),
    ensures
        r == find_path(worktrees.deep_view(), list@, path@, 0),
{
    let ghost ws = worktrees.deep_view();
    let mut i: usize = 0;
    while i < list.len()
        invariant
            i <= list.len(),
            ws == worktrees.deep_view(),
            forall|p: int| 0 <= p < list.len() ==> #[trigger] list[p] < worktrees.len(),
            find_path(ws, list@, path@, 0) == find_path(ws, list@, path@, i as int),
        decreases list.len() - i,
    {
        assert(ws[list[i as int] as int] == worktrees[list[i as int] as int]@);
        if worktrees[list[i]].path == *path {
            return Some(i);
        }
        i += 1;
    }
    None
}

/// The first position of `list` that holds `record`.
fn position_of_record(list: &Vec<usize>, record: usize) -> (r: Option<usize>)
    ensures
        r == find_record(list@, record, 0),
        r matches Some(p) ==> p < list.len(),
{
    let mut i: usize = 0;
    while i < list.len()
        invariant
            i <= list.len(),
            find_record(list@, record, 0) == find_record(list@, record, i as int),
        decreases list.len() - i,
    {
        if list[i] == record {
            return Some(i);
        }
        i += 1;
    }
    None
}

/// The selection kept on `record` in the list `filtered`.
fn keep_on_record(record: Option<usize>, filtered: &Vec<usize>) -> (r: Option<usize>)
    ensures
        r == kept_on_record(record, filtered@),
        r matches Some(p) ==> p < filtered.len(),
{
    let found = match record {
        Some(i) => position_of_record(filtered, i),
        None => None,
    };
    if found.is_some() {
        found
    } else if filtered.len() > 0 {
        Some(0)
    } else {
        None
    }
}

impl ViewIndex {
    #[verifier::type_invariant]
    spec fn inv(self) -> bool {
        well_formed(self@)
    }

    /// The index of `worktrees` under `sort_order`, with no search on and the
    /// first entry selected (none where there is no record).
    pub fn new(worktrees: Vec<Worktree>, sort_order: SortOrder) -> (r: ViewIndex)
        ensures
            well_formed(r@),
            r@.worktrees == worktrees.deep_view(),
            r@.sort_order == sort_order,
            r@.query == Seq::<char>::empty(),
            r@.filtered == r@.order,
            r@.selected == (if worktrees.len() > 0 {
                Some(0usize)
            } else {
                None
            }),
    {
        let order = sorted_indices(&worktrees, sort_order);
        let filtered = order.clone();
        let selected = if filtered.len() > 0 {
            Some(0)
        } else {
            None
        };
        let query = String::new();
        proof {
            lemma_empty_query_shows_all(worktrees.deep_view(), order@);
        }
        ViewIndex { worktrees, sort_order, query, order, filtered, selected }
    }

    /// The records, in the order in which they came.
    pub fn worktrees(&self) -> (r: &Vec<Worktree>)
        ensures
            r.deep_view() == self@.worktrees,
    {
        &self.worktrees
    }

    /// How many records there are.
    pub fn len(&self) -> (r: usize)
        ensures
            r == self@.worktrees.len(),
    {
        self.worktrees.len()
    }

    /// Whether there is no record.
    pub fn is_empty(&self) -> (r: bool)
        ensures
            r == (self@.worktrees.len() == 0),
    {
        self.worktrees.len() == 0
    }

    pub fn sort_order(&self) -> (r: SortOrder)
        ensures
            r == self@.sort_order,
    {
        self.sort_order
    }

    /// The search query; empty where no search is on.
    pub fn query(&self) -> (r: &str)
        ensures
            r@ == self@.query,
    {
        self.query.as_str()
    }

    /// All positions of the collection in display order.
    pub fn order(&self) -> (r: &Vec<usize>)
        ensures
            r@ == self@.order,
            well_formed(self@),
    {
        proof {
            use_type_invariant(self);
        }
        &self.order
    }

    /// The positions, in display order, of the records that pass the query.
    pub fn filtered_indices(&self) -> (r: &Vec<usize>)
        ensures
            r@ == self@.filtered,
            well_formed(self@),
    {
        proof {
            use_type_invariant(self);
        }
        &self.filtered
    }

    /// The selected position of the filtered list.
    pub fn selected(&self) -> (r: Option<usize>)
        ensures
            r == self@.selected,
            well_formed(self@),
    {
        proof {
            use_type_invariant(self);
        }
        self.selected
    }

    /// The record under the selection.
    pub fn selected_worktree(&self) -> (r: Option<&Worktree>)
        ensures
            r.deep_view() == selected_record(self@),
    {
        proof {
            use_type_invariant(self);
            self.lemma_positions_in_range();
        }
        match self.selected {
            Some(p) => {
                let i: usize = self.filtered[p];
                assert(self.worktrees.deep_view()[i as int] == self.worktrees[i as int]@);
                Some(&self.worktrees[i])
            },
            None => None,
        }
    }

    /// The record at the position `position` of the filtered list.
    pub fn shown_worktree(&self, position: usize) -> (r: Option<&Worktree>)
        ensures
            well_formed(self@),
            position >= self@.filtered.len() ==> r is None,
            position < self@.filtered.len() ==> r.deep_view() == Some(
                self@.worktrees[self@.filtered[position as int] as int],
            ),
    {
        proof {
            use_type_invariant(self);
            self.lemma_positions_in_range();
        }
        if position < self.filtered.len() {
            let i: usize = self.filtered[position];
            assert(self.worktrees.deep_view()[i as int] == self.worktrees[i as int]@);
            Some(&self.worktrees[i])
        } else {
            None
        }
    }

    /// The main worktree's record: the first in display order, if that is a
    /// main worktree. Where it is not, no record is.
    pub fn main_worktree(&self) -> (r: Option<&Worktree>)
        ensures
            r.deep_view() == shown_main(self@),
            r is None ==> forall|i: int|
                0 <= i < self@.worktrees.len() ==> !(#[trigger] self@.worktrees[i]).is_main,
    {
        proof {
            use_type_invariant(self);
            self.lemma_positions_in_range();
        }
        if self.order.len() == 0 {
            return None;
        }
        let first: usize = self.order[0];
        assert(self.worktrees.deep_view()[first as int] == self.worktrees[first as int]@);
        if self.worktrees[first].is_main {
            Some(&self.worktrees[first])
        } else {
            proof {
                assert forall|i: int| 0 <= i < self@.worktrees.len() implies !(
                #[trigger] self@.worktrees[i]).is_main by {
                    if self@.worktrees[i].is_main {
                        lemma_main_is_first(self@.worktrees, self@.sort_order, self@.order, i);
                    }
                }
            }
            None
        }
    }

    /// Every position held by the order or by the filtered list is a position
    /// of the collection.
    proof fn lemma_positions_in_range(&self)
        requires
            well_formed(self@),
        ensures
            self.order@.len() == self.worktrees@.len(),
            self.order@.len() <= usize::MAX,
            self.filtered@.len() <= usize::MAX,
            forall|p: int| 0 <= p < self.order@.len() ==> #[trigger] self.order@[p] < self.worktrees@.len(),
            forall|p: int|
                0 <= p < self.filtered@.len() ==> #[trigger] self.filtered@[p]
                    < self.worktrees@.len(),
    {
        let v = self@;
        assert(self.order@.len() == self.order.len());
        assert(self.filtered@.len() == self.filtered.len());
        lemma_shown_is_selection(v.worktrees, v.order, v.query);
        assert forall|p: int| 0 <= p < self.filtered@.len() implies #[trigger] self.filtered@[p]
            < self.worktrees@.len() by {
            assert(v.order.contains(v.filtered[p]));
        }
    }

    /// Replaces the collection by `worktrees`, as a refresh does.
    ///
    /// Sort order and query stay. The selection follows the record that was
    /// selected, by its branch, else by its path (see [`reselected`]), not
    /// the position it had.
    pub fn replace(&mut self, worktrees: Vec<Worktree>)
        ensures
            well_formed(final(self)@),
            final(self)@ == replaced(old(self)@, worktrees.deep_view()),
    {
        proof {
            use_type_invariant(&*self);
            self.lemma_positions_in_range();
        }
        let order = sorted_indices(&worktrees, self.sort_order);
        let filtered = filter_indices(&worktrees, &order, self.query.as_str());
        proof {
            lemma_shown_is_selection(worktrees.deep_view(), order@, self.query@);
            assert forall|p: int| 0 <= p < filtered.len() implies #[trigger] filtered[p]
                < worktrees.len() by {
                assert(order@.contains(filtered@[p]));
            }
        }
        let (by_branch, by_path) = match self.selected {
            Some(p) => {
                let i: usize = self.filtered[p];
                assert(self.worktrees.deep_view()[i as int] == self.worktrees[i as int]@);
                let before = &self.worktrees[i];
                let by_branch = match &before.branch {
                    Some(name) => position_of_branch(&worktrees, &filtered, name),
                    None => None,
                };
                (by_branch, position_of_path(&worktrees, &filtered, &before.path))
            },
            None => (None, None),
        };
        proof {
            let before = selected_record(self@);
            if before is Some {
                lemma_find_path(worktrees.deep_view(), filtered@, before.unwrap().path, 0);
                if before.unwrap().branch is Some {
                    lemma_find_branch(
                        worktrees.deep_view(),
                        filtered@,
                        before.unwrap().branch.unwrap(),
                        0,
                    );
                }
            }
        }
        let selected = if by_branch.is_some() {
            by_branch
        } else if by_path.is_some() {
            by_path
        } else {
            match self.selected {
                Some(p) if p < filtered.len() => Some(p),
                _ => if filtered.len() > 0 {
                    Some(0)
                } else {
                    None
                },
            }
        };
        let sort_order = self.sort_order;
        let query = self.query.clone();
        *self = ViewIndex { worktrees, sort_order, query, order, filtered, selected };
    }

    /// The record under the selection, as its position in the collection.
    fn selected_position(&self) -> (r: Option<usize>)
        ensures
            r == selected_index(self@),
    {
        proof {
            use_type_invariant(self);
        }
        match self.selected {
            Some(p) => Some(self.filtered[p]),
            None => None,
        }
    }

    /// Sets the search query and filters anew.
    ///
    /// The selection stays on the selected record where that passes the new
    /// query; where it does not, or nothing was selected, the selection goes
    /// to the first entry, or to none where nothing passes.
    pub fn set_query(&mut self, query: String)
        ensures
            well_formed(final(self)@),
            final(self)@ == queried(old(self)@, query@),
    {
        proof {
            use_type_invariant(&*self);
            self.lemma_positions_in_range();
        }
        let filtered = filter_indices(&self.worktrees, &self.order, query.as_str());
        let selected = keep_on_record(self.selected_position(), &filtered);
        let sort_order = self.sort_order;
        let (worktrees, order) = self.take_parts();
        *self = ViewIndex { worktrees, sort_order, query, order, filtered, selected };
    }

    /// Ends the search: the query is emptied and every record is shown again,
    /// in the display order. The selection stays on the selected record.
    pub fn clear_query(&mut self)
        ensures
            well_formed(final(self)@),
            final(self)@ == queried(old(self)@, Seq::empty()),
            final(self)@.filtered == final(self)@.order,
    {
        proof {
            use_type_invariant(&*self);
            lemma_empty_query_shows_all(self@.worktrees, self@.order);
        }
        self.set_query(String::new());
    }

    /// Goes on to the next sort order. The selection stays on the selected
    /// record, wherever the new order puts it.
    pub fn cycle_sort(&mut self)
        ensures
            well_formed(final(self)@),
            final(self)@ == sort_cycled(old(self)@),
    {
        proof {
            use_type_invariant(&*self);
            self.lemma_positions_in_range();
        }
        let sort_order = self.sort_order.next();
        let order = sorted_indices(&self.worktrees, sort_order);
        let filtered = filter_indices(&self.worktrees, &order, self.query.as_str());
        let selected = keep_on_record(self.selected_position(), &filtered);
        let query = self.query.clone();
        let (worktrees, _) = self.take_parts();
        *self = ViewIndex { worktrees, sort_order, query, order, filtered, selected };
    }

    /// Moves the selection by `delta` entries, down for a positive `delta`
    /// and up for a negative one, stopping at the ends of the filtered list.
    /// With no selection the move starts from the first entry. Nothing
    /// happens in an empty list.
    pub fn move_selection(&mut self, delta: i32)
        ensures
            well_formed(final(self)@),
            final(self)@ == selection_moved(old(self)@, delta as int),
    {
        proof {
            use_type_invariant(&*self);
        }
        let len = self.filtered.len();
        if len == 0 {
            return ;
        }
        let current: usize = match self.selected {
            Some(p) => p,
            None => 0,
        };
        let target: usize = if delta > 0 {
            let room: usize = len - 1 - current;
            if (delta as u32) as u64 >= room as u64 {
                len - 1
            } else {
                current + delta as usize
            }
        } else {
            let back: u64 = (-(delta as i64)) as u64;
            if back >= current as u64 {
                0
            } else {
                current - back as usize
            }
        };
        self.selected = Some(target);
    }

    /// Selects the first entry of the filtered list, if there is one.
    pub fn select_first(&mut self)
        ensures
            well_formed(final(self)@),
            final(self)@ == first_selected(old(self)@),
    {
        proof {
            use_type_invariant(&*self);
        }
        if self.filtered.len() > 0 {
            self.selected = Some(0);
        }
    }

    /// Selects the last entry of the filtered list, if there is one.
    pub fn select_last(&mut self)
        ensures
            well_formed(final(self)@),
            final(self)@ == last_selected(old(self)@),
    {
        proof {
            use_type_invariant(&*self);
        }
        if self.filtered.len() > 0 {
            self.selected = Some(self.filtered.len() - 1);
        }
    }

    /// Selects the entry at `position` of the filtered list; a position
    /// beyond its end changes nothing.
    pub fn select_position(&mut self, position: usize)
        ensures
            well_formed(final(self)@),
            final(self)@ == position_selected(old(self)@, position),
    {
        proof {
            use_type_invariant(&*self);
        }
        if position < self.filtered.len() {
            self.selected = Some(position);
        }
    }

    /// Selects the first shown record whose path is `path`; changes nothing
    /// where no shown record has it.
    pub fn select_path(&mut self, path: &str)
        ensures
            well_formed(final(self)@),
            final(self)@ == path_selected(old(self)@, path@),
    {
        proof {
            use_type_invariant(&*self);
            self.lemma_positions_in_range();
            lemma_find_path(self@.worktrees, self@.filtered, path@, 0);
        }
        let wanted = path.to_owned();
        match position_of_path(&self.worktrees, &self.filtered, &wanted) {
            Some(p) => {
                self.selected = Some(p);
            },
            None => {},
        }
    }

    /// The position in the collection of the first record, in display order,
    /// that is on the branch `name`.
    pub fn first_on_branch(&self, name: &str) -> (r: Option<usize>)
        ensures
            well_formed(self@),
            match find_branch(self@.worktrees, self@.order, name@, 0) {
                Some(p) => r == Some(self@.order[p as int]),
                None => r is None,
            },
            r matches Some(i) ==> i < self@.worktrees.len() && self@.worktrees[i as int].branch
                == Some(name@),
    {
        proof {
            use_type_invariant(self);
            self.lemma_positions_in_range();
            lemma_find_branch(self@.worktrees, self@.order, name@, 0);
        }
        let wanted = name.to_owned();
        match position_of_branch(&self.worktrees, &self.order, &wanted) {
            Some(p) => Some(self.order[p]),
            None => None,
        }
    }

    /// Takes the records and their order out of the index, which is left
    /// empty.
    fn take_parts(&mut self) -> (r: (Vec<Worktree>, Vec<usize>))
        ensures
            r.0 == old(self).worktrees,
            r.1 == old(self).order,
    {
        let mut taken = ViewIndex::new(Vec::new(), self.sort_order);
        std::mem::swap(self, &mut taken);
        let ViewIndex { worktrees, order, .. } = taken;
        (worktrees, order)
    }
}

/// The selection follows the branch across a refresh: where the record that
/// was selected is on a branch, and some record that passes the filter after
/// the refresh is on that branch, a record on that branch is selected
/// afterwards, wherever the new order has put it and whatever position was
/// selected before.
pub proof fn lemma_selection_follows_branch(
    before: Option<WorktreeView>,
    position: Option<usize>,
    ws: Seq<WorktreeView>,
    filtered: Seq<usize>,
    name: Seq<char>,
    at: int,
)
    requires
        filtered.len() <= usize::MAX,
        before matches Some(w) && w.branch == Some(name),
        0 <= at < filtered.len(),
        ws[filtered[at] as int].branch == Some(name),
    ensures
        reselected(before, position, ws, filtered) matches Some(p) && p < filtered.len()
            && ws[filtered[p as int] as int].branch == Some(name),
{
    lemma_find_branch(ws, filtered, name, 0);
}

/// Where the selected record has no branch, or its branch is gone, the
/// selection follows its path.
pub proof fn lemma_selection_follows_path(
    before: Option<WorktreeView>,
    position: Option<usize>,
    ws: Seq<WorktreeView>,
    filtered: Seq<usize>,
    at: int,
)
    requires
        filtered.len() <= usize::MAX,
        before is Some,
        before.unwrap().branch matches Some(name) ==> forall|q: int|
            0 <= q < filtered.len() ==> ws[#[trigger] filtered[q] as int].branch != Some(name),
        0 <= at < filtered.len(),
        ws[filtered[at] as int].path == before.unwrap().path,
    ensures
        reselected(before, position, ws, filtered) matches Some(p) && p < filtered.len()
            && ws[filtered[p as int] as int].path == before.unwrap().path,
{
    lemma_find_path(ws, filtered, before.unwrap().path, 0);
    if before.unwrap().branch is Some {
        lemma_find_branch(ws, filtered, before.unwrap().branch.unwrap(), 0);
    }
}

/// Clearing the query restores every record in the order in which they were
/// shown before the search: the filtered list is the display order again,
/// which the search has not touched.
pub proof fn lemma_clearing_restores_order(before: IndexView, query: Seq<char>)
    ensures
        queried(before, query).order == before.order,
        queried(queried(before, query), Seq::empty()).filtered == before.order,
        queried(queried(before, query), Seq::empty()).order == before.order,
{
    lemma_empty_query_shows_all(before.worktrees, before.order);
}

/// In a well-formed index the display order holds a position of the
/// collection at every place, and as many places as there are records.
pub proof fn lemma_order_in_range(v: IndexView)
    requires
        well_formed(v),
    ensures
        v.order.len() == v.worktrees.len(),
        forall|p: int| 0 <= p < v.order.len() ==> #[trigger] v.order[p] < v.worktrees.len(),
{
}

/// In a well-formed index that holds a main worktree, the first entry of the
/// display order is a main worktree, whatever the sort order; and so is the
/// first shown entry where no search is on.
pub proof fn lemma_main_shown_first(v: IndexView, main: int)
    requires
        well_formed(v),
        0 <= main < v.worktrees.len(),
        v.worktrees[main].is_main,
    ensures
        v.order.len() > 0,
        v.worktrees[v.order[0] as int].is_main,
        v.query.len() == 0 ==> v.filtered == v.order,
{
    lemma_main_is_first(v.worktrees, v.sort_order, v.order, main);
    if v.query.len() == 0 {
        assert(v.query =~= Seq::<char>::empty());
        lemma_empty_query_shows_all(v.worktrees, v.order);
    }
}

} // verus!
