//! The order in which worktrees are shown.
//!
//! Every record gets a key; records are shown by ascending key, the record
//! with the lower position in the collection first where two keys are equal.
//! The main worktree's key is below every other key whatever the order chosen.

use crate::model::{display_name, SortOrder, Worktree, WorktreeView};
use crate::text::{
    chars_less, chars_of, lemma_lex_asymmetric, lemma_lex_irreflexive, lemma_lex_total,
    lemma_lex_transitive, lex_less,
};
use vstd::prelude::*;

verus! {

/// What an item is ordered by.
pub ghost struct SortKey {
    /// Items of a lower group come first whatever else the key holds.
    pub group: int,
    /// The order's own measure, lower first.
    pub rank: int,
    /// Breaks ties within a rank, alphabetically.
    pub name: Seq<char>,
}

/// A key as the sort holds it.
#[derive(Debug, PartialEq, Eq)]
pub struct OrderKey {
    pub group: u8,
    pub rank: i128,
    pub name: Vec<char>,
}

impl View for OrderKey {
    type V = SortKey;

    open spec fn view(&self) -> SortKey {
        SortKey { group: self.group as int, rank: self.rank as int, name: self.name@ }
    }
}

impl DeepView for OrderKey {
    type V = SortKey;

    open spec fn deep_view(&self) -> SortKey {
        self@
    }
}

/// Keys compare by group, then rank, then name.
pub open spec fn key_less(a: SortKey, b: SortKey) -> bool {
    ||| a.group < b.group
    ||| a.group == b.group && a.rank < b.rank
    ||| a.group == b.group && a.rank == b.rank && lex_less(a.name, b.name)
}

/// The item at position `i` is shown before the one at position `j`: its key
/// is the lower one, or the keys are equal and `i` is the lower position.
pub open spec fn shown_before(keys: Seq<SortKey>, i: int, j: int) -> bool {
    ||| key_less(keys[i], keys[j])
    ||| !key_less(keys[j], keys[i]) && i < j
}

/// The position `i` stands somewhere in `r`.
pub open spec fn lists(r: Seq<usize>, i: int) -> bool {
    exists|p: int| 0 <= p < r.len() && #[trigger] r[p] == i
}

/// `r` lists the positions `0..k`, each once, in the order in which the items
/// with the keys `keys` are shown.
pub open spec fn arranges(keys: Seq<SortKey>, r: Seq<usize>, k: int) -> bool {
    &&& r.len() == k
    &&& forall|p: int| 0 <= p < r.len() ==> 0 <= #[trigger] r[p] < k
    &&& forall|i: int| 0 <= i < k ==> #[trigger] lists(r, i)
    &&& forall|p: int, q: int|
        0 <= p < q < r.len() ==> shown_before(keys, #[trigger] r[p] as int, #[trigger] r[q] as int)
}

/// `r` is the order in which all items with the keys `keys` are shown.
pub open spec fn is_sorted_order(keys: Seq<SortKey>, r: Seq<usize>) -> bool {
    arranges(keys, r, keys.len() as int)
}

// ---------------------------------------------------------------------------
// The keys of worktrees
// ---------------------------------------------------------------------------

/// Whether the worktree is dirty: not clean, that is, with a changed path,
/// or ahead of its upstream, or behind it.
pub open spec fn is_dirty(w: WorktreeView) -> bool {
    !w.status.clean()
}

/// The key of `w` under `order`. The main worktree is in a group of its own
/// that comes first. Within a group the order decides:
/// by name, the displayed name;
/// by status, dirty worktrees before clean ones, then the displayed name;
/// by recency, the later HEAD commit first, a worktree without commit time
/// after all that have one.
pub open spec fn sort_key(order: SortOrder, w: WorktreeView) -> SortKey {
    let group: int = if w.is_main {
        0
    } else {
        1
    };
    match order {
        SortOrder::Name => SortKey { group, rank: 0, name: display_name(w) },
        SortOrder::Status => SortKey {
            group,
            rank: if is_dirty(w) {
                0
            } else {
                1
            },
            name: display_name(w),
        },
        SortOrder::Recent => SortKey {
            group,
            rank: match w.commit_time {
                Some(t) => -(t as int),
                None => i64::MAX + 2,
            },
            name: Seq::empty(),
        },
    }
}

/// The keys of all records of `ws` under `order`.
pub open spec fn sort_keys(order: SortOrder, ws: Seq<WorktreeView>) -> Seq<SortKey> {
    Seq::new(ws.len(), |i: int| sort_key(order, ws[i]))
}

/// `a` has to be shown before `b` whatever their positions in the collection.
pub open spec fn ranks_before(order: SortOrder, a: WorktreeView, b: WorktreeView) -> bool {
    key_less(sort_key(order, a), sort_key(order, b))
}

/// `r` is the display order of the collection `ws`: it lists every position
/// once, a record coming before every record that it ranks before, and
/// before those of equal key that stand behind it in the collection.
pub open spec fn is_display_order(ws: Seq<WorktreeView>, order: SortOrder, r: Seq<usize>) -> bool {
    is_sorted_order(sort_keys(order, ws), r)
}

// ---------------------------------------------------------------------------
// The key order is a strict weak order
// ---------------------------------------------------------------------------

/// No key is below itself.
pub proof fn lemma_key_irreflexive(a: SortKey)
    ensures
        !key_less(a, a),
{
    lemma_lex_irreflexive(a.name);
}

/// The key order is transitive.
pub proof fn lemma_key_transitive(a: SortKey, b: SortKey, c: SortKey)
    requires
        key_less(a, b),
        key_less(b, c),
    ensures
        key_less(a, c),
{
    if a.group == b.group && b.group == c.group && a.rank == b.rank && b.rank == c.rank {
        lemma_lex_transitive(a.name, b.name, c.name);
    }
}

/// Where `a` is not below `b` and `b` is not below `c`, `a` is not below `c`.
pub proof fn lemma_key_not_less_transitive(a: SortKey, b: SortKey, c: SortKey)
    requires
        !key_less(a, b),
        !key_less(b, c),
    ensures
        !key_less(a, c),
{
    if a.group == b.group && b.group == c.group && a.rank == b.rank && b.rank == c.rank {
        lemma_lex_total(a.name, b.name);
        lemma_lex_total(b.name, c.name);
        if lex_less(a.name, c.name) {
            if a.name == b.name {
            } else if b.name == c.name {
            } else {
                lemma_lex_transitive(c.name, b.name, a.name);
                lemma_lex_asymmetric(a.name, c.name);
            }
        }
    }
}

/// Of two different positions exactly one is shown before the other.
pub proof fn lemma_shown_before_total(keys: Seq<SortKey>, i: int, j: int)
    requires
        i != j,
    ensures
        shown_before(keys, i, j) != shown_before(keys, j, i),
{
    let a = keys[i];
    let b = keys[j];
    if a.group == b.group && a.rank == b.rank {
        lemma_lex_asymmetric(a.name, b.name);
    }
}

/// No position is shown before itself.
pub proof fn lemma_shown_before_irreflexive(keys: Seq<SortKey>, i: int)
    ensures
        !shown_before(keys, i, i),
{
    lemma_key_irreflexive(keys[i]);
}

// ---------------------------------------------------------------------------
// Computing the order
// ---------------------------------------------------------------------------

/// Whether the key `a` is below the key `b`.
pub fn key_before(a: &OrderKey, b: &OrderKey) -> (r: bool)
    ensures
        r == key_less(a@, b@),
{
    if a.group != b.group {
        a.group < b.group
    } else if a.rank != b.rank {
        a.rank < b.rank
    } else {
        chars_less(&a.name, &b.name)
    }
}

/// The positions of `keys` in the order in which their items are shown:
/// ascending by key, items of equal key in the order of their positions.
pub fn sort_positions(keys: &Vec<OrderKey>) -> (r: Vec<usize>)
    ensures
        is_sorted_order(keys.deep_view(), r@),
{
    let ghost ks = keys.deep_view();
    let mut r: Vec<usize> = Vec::new();
    let mut k: usize = 0;
    while k < keys.len()
        invariant
            k <= keys.len(),
            ks == keys.deep_view(),
            arranges(ks, r@, k as int),
        decreases keys.len() - k,
    {
        let mut pos: usize = r.len();
        let mut searching = true;
        while searching && pos > 0
            invariant
                pos <= r.len(),
                k < keys.len(),
                ks == keys.deep_view(),
                arranges(ks, r@, k as int),
                forall|q: int|
                    pos <= q < r.len() ==> key_less(ks[k as int], ks[#[trigger] r[q] as int]),
                !searching ==> pos > 0 && !key_less(ks[k as int], ks[r[pos - 1] as int]),
            decreases
                    (if searching {
                        pos + 1
                    } else {
                        0
                    }),
        {
            let other: usize = r[pos - 1];
            assert(ks[k as int] == keys[k as int]@);
            assert(ks[other as int] == keys[other as int]@);
            if key_before(&keys[k], &keys[other]) {
                pos -= 1;
            } else {
                searching = false;
            }
        }
        let ghost before = r@;
        r.insert(pos, k);
        proof {
            lemma_insert_arranges(ks, before, k as int, pos as int);
        }
        k += 1;
    }
    r
}

/// Putting position `k` into an arrangement of `0..k`, behind every item
/// whose key is not above its own and in front of the rest, gives an
/// arrangement of `0..k+1`.
proof fn lemma_insert_arranges(keys: Seq<SortKey>, r: Seq<usize>, k: int, pos: int)
    requires
        0 <= k < keys.len(),
        k <= usize::MAX,
        arranges(keys, r, k),
        0 <= pos <= r.len(),
        forall|q: int| pos <= q < r.len() ==> key_less(keys[k], keys[#[trigger] r[q] as int]),
        pos > 0 ==> !key_less(keys[k], keys[r[pos - 1] as int]),
    ensures
        arranges(keys, r.insert(pos, k as usize), k + 1),
{
    let s = r.insert(pos, k as usize);
    assert(s.len() == k + 1);
    assert forall|p: int| 0 <= p < s.len() implies 0 <= #[trigger] s[p] < k + 1 by {
        if p < pos {
            assert(s[p] == r[p]);
        } else if p > pos {
            assert(s[p] == r[p - 1]);
        }
    }
    assert forall|i: int| 0 <= i < k + 1 implies #[trigger] lists(s, i) by {
        if i == k {
            assert(s[pos] == i);
        } else {
            assert(lists(r, i));
            let p0 = choose|p: int| 0 <= p < r.len() && #[trigger] r[p] == i;
            if p0 < pos {
                assert(s[p0] == i);
            } else {
                assert(s[p0 + 1] == r[p0]);
            }
        }
    }
    // No key in front of `pos` is above the key of `k`.
    assert forall|q: int| 0 <= q < pos implies !key_less(keys[k], keys[#[trigger] r[q] as int]) by {
        if q < pos - 1 {
            let a = keys[k];
            let b = keys[r[q] as int];
            let c = keys[r[pos - 1] as int];
            assert(shown_before(keys, r[q] as int, r[pos - 1] as int));
            if key_less(a, b) {
                if key_less(b, c) {
                    lemma_key_transitive(a, b, c);
                } else {
                    lemma_key_not_less_transitive(a, c, b);
                }
            }
        }
    }
    assert forall|p: int, q: int| 0 <= p < q < s.len() implies shown_before(
        keys,
        #[trigger] s[p] as int,
        #[trigger] s[q] as int,
    ) by {
        if q < pos {
            assert(s[p] == r[p] && s[q] == r[q]);
        } else if q == pos {
            assert(s[p] == r[p]);
            assert(s[q] == k);
            assert(r[p] < k);
        } else if p < pos {
            assert(s[p] == r[p] && s[q] == r[q - 1]);
        } else if p == pos {
            assert(s[p] == k);
            assert(s[q] == r[q - 1]);
        } else {
            assert(s[p] == r[p - 1] && s[q] == r[q - 1]);
        }
    }
}

/// Where position `k` goes among the first `pos` places of `r`: behind the
/// last of them whose item does not come after the item at `k`.
pub open spec fn insert_position(keys: Seq<SortKey>, r: Seq<usize>, k: int, pos: int) -> int
    decreases pos,
{
    if pos <= 0 {
        0
    } else if key_less(keys[k], keys[r[pos - 1] as int]) {
        insert_position(keys, r, k, pos - 1)
    } else {
        pos
    }
}

/// The sorted order of the first `k` positions: each position put in turn
/// behind the items that do not come after its own.
pub open spec fn sorted_upto(keys: Seq<SortKey>, k: int) -> Seq<usize>
    decreases k,
{
    if k <= 0 {
        Seq::empty()
    } else {
        let r = sorted_upto(keys, k - 1);
        r.insert(insert_position(keys, r, k - 1, r.len() as int), (k - 1) as usize)
    }
}

/// The sorted order of all items with the keys `keys`.
pub open spec fn sorted_order(keys: Seq<SortKey>) -> Seq<usize> {
    sorted_upto(keys, keys.len() as int)
}

proof fn lemma_insert_position(keys: Seq<SortKey>, r: Seq<usize>, k: int, pos: int)
    requires
        0 <= pos <= r.len(),
    ensures
        0 <= insert_position(keys, r, k, pos) <= pos,
        forall|q: int|
            insert_position(keys, r, k, pos) <= q < pos ==> key_less(
                keys[k],
                keys[#[trigger] r[q] as int],
            ),
        insert_position(keys, r, k, pos) > 0 ==> !key_less(
            keys[k],
            keys[r[insert_position(keys, r, k, pos) - 1] as int],
        ),
    decreases pos,
{
    if pos > 0 && key_less(keys[k], keys[r[pos - 1] as int]) {
        lemma_insert_position(keys, r, k, pos - 1);
    }
}

proof fn lemma_sorted_upto(keys: Seq<SortKey>, k: int)
    requires
        0 <= k <= keys.len(),
        k <= usize::MAX + 1,
    ensures
        arranges(keys, sorted_upto(keys, k), k),
    decreases k,
{
    if k > 0 {
        lemma_sorted_upto(keys, k - 1);
        let r = sorted_upto(keys, k - 1);
        lemma_insert_position(keys, r, k - 1, r.len() as int);
        lemma_insert_arranges(keys, r, k - 1, insert_position(keys, r, k - 1, r.len() as int));
    }
}

/// Every sequence of keys has a sorted order, and [`sorted_order`] is it.
pub proof fn lemma_sorted_order_exists(keys: Seq<SortKey>)
    requires
        keys.len() <= usize::MAX + 1,
    ensures
        is_sorted_order(keys, sorted_order(keys)),
{
    lemma_sorted_upto(keys, keys.len() as int);
}

/// There is one sorted order only.
pub proof fn lemma_sorted_order_unique(keys: Seq<SortKey>, a: Seq<usize>, b: Seq<usize>)
    requires
        is_sorted_order(keys, a),
        is_sorted_order(keys, b),
    ensures
        a == b,
{
    assert forall|p: int| 0 <= p < a.len() implies a[p] == b[p] by {
        lemma_same_position(keys, a, b, p);
    }
    assert(a =~= b);
}

/// Two sorted orders that agree below `p` agree at `p`.
proof fn lemma_same_position(keys: Seq<SortKey>, a: Seq<usize>, b: Seq<usize>, p: int)
    requires
        is_sorted_order(keys, a),
        is_sorted_order(keys, b),
        0 <= p < a.len(),
    ensures
        a[p] == b[p],
    decreases p,
{
    assert forall|q: int| 0 <= q < p implies a[q] == b[q] by {
        lemma_same_position(keys, a, b, q);
    }
    let x = a[p] as int;
    let y = b[p] as int;
    if x != y {
        // x stands somewhere in b, and not below p, for there b agrees with a
        // and a holds x at p only.
        assert(lists(b, x) && lists(a, y));
        let qb = choose|q: int| 0 <= q < b.len() && #[trigger] b[q] == x;
        if qb < p {
            assert(a[qb] == b[qb]);
            assert(shown_before(keys, a[qb] as int, a[p] as int));
            lemma_shown_before_irreflexive(keys, x);
        }
        let qa = choose|q: int| 0 <= q < a.len() && #[trigger] a[q] == y;
        if qa < p {
            assert(a[qa] == b[qa]);
            assert(shown_before(keys, b[qa] as int, b[p] as int));
            lemma_shown_before_irreflexive(keys, y);
        }
        assert(qb > p);
        assert(qa > p);
        assert(shown_before(keys, b[p] as int, b[qb] as int));
        assert(shown_before(keys, a[p] as int, a[qa] as int));
        lemma_shown_before_total(keys, x, y);
    }
}

// ---------------------------------------------------------------------------
// The display order of worktrees
// ---------------------------------------------------------------------------

/// The key of `w` under `order`.
pub fn worktree_key(order: SortOrder, w: &Worktree) -> (r: OrderKey)
    ensures
        r@ == sort_key(order, w@),
{
    let group: u8 = if w.is_main {
        0
    } else {
        1
    };
    match order {
        SortOrder::Name => OrderKey { group, rank: 0, name: chars_of(w.branch_label()) },
        SortOrder::Status => OrderKey {
            group,
            rank: if w.status.is_clean() {
                1
            } else {
                0
            },
            name: chars_of(w.branch_label()),
        },
        SortOrder::Recent => OrderKey {
            group,
            rank: match w.commit_time {
                Some(t) => -(t as i128),
                None => 9223372036854775809i128,
            },
            name: Vec::new(),
        },
    }
}

/// The positions of `worktrees` in display order under `order`.
pub fn sorted_indices(worktrees: &Vec<Worktree>, order: SortOrder) -> (r: Vec<usize>)
    ensures
        is_display_order(worktrees.deep_view(), order, r@),
        r@ == display_order(worktrees.deep_view(), order),
{
    let mut keys: Vec<OrderKey> = Vec::new();
    let mut i: usize = 0;
    while i < worktrees.len()
        invariant
            i <= worktrees.len(),
            keys.len() == i,
            forall|j: int| 0 <= j < i ==> (#[trigger] keys[j])@ == sort_key(order, worktrees[j]@),
        decreases worktrees.len() - i,
    {
        keys.push(worktree_key(order, &worktrees[i]));
        i += 1;
    }
    assert(keys.deep_view() =~= sort_keys(order, worktrees.deep_view()));
    let r = sort_positions(&keys);
    proof {
        lemma_display_order_exists(worktrees.deep_view(), order);
        lemma_display_order_unique(
            worktrees.deep_view(),
            order,
            r@,
            display_order(worktrees.deep_view(), order),
        );
    }
    r
}

/// The display order of the collection `ws` under `order`.
pub open spec fn display_order(ws: Seq<WorktreeView>, order: SortOrder) -> Seq<usize> {
    sorted_order(sort_keys(order, ws))
}

/// Every collection has a display order, and [`display_order`] is it.
pub proof fn lemma_display_order_exists(ws: Seq<WorktreeView>, order: SortOrder)
    requires
        ws.len() <= usize::MAX + 1,
    ensures
        is_display_order(ws, order, display_order(ws, order)),
{
    lemma_sorted_order_exists(sort_keys(order, ws));
}

/// A display order is as long as the collection, which therefore has no
/// more records than there are positions to name them.
pub proof fn lemma_display_order_len(ws: Seq<WorktreeView>, order: SortOrder, r: Seq<usize>)
    requires
        is_display_order(ws, order, r),
    ensures
        r.len() == ws.len(),
        ws.len() <= usize::MAX + 1,
{
    if ws.len() > 0 {
        assert(lists(r, ws.len() - 1));
    }
}

/// Under the order by status no clean record is shown before a dirty one,
/// the main worktree aside: of two records that are not the main worktree,
/// the one shown first is dirty or the one shown second is clean; and where
/// both are dirty or both clean, the one shown first has the name that comes
/// first, or the same name.
pub proof fn lemma_dirty_before_clean(ws: Seq<WorktreeView>, r: Seq<usize>, p: int, q: int)
    requires
        is_display_order(ws, SortOrder::Status, r),
        0 <= p < q < r.len(),
        !ws[r[p] as int].is_main,
        !ws[r[q] as int].is_main,
    ensures
        !ws[r[p] as int].status.clean() || ws[r[q] as int].status.clean(),
        ws[r[p] as int].status.clean() == ws[r[q] as int].status.clean() ==> !lex_less(
            display_name(ws[r[q] as int]),
            display_name(ws[r[p] as int]),
        ),
{
    let keys = sort_keys(SortOrder::Status, ws);
    assert(shown_before(keys, r[p] as int, r[q] as int));
    lemma_lex_asymmetric(display_name(ws[r[p] as int]), display_name(ws[r[q] as int]));
}

/// In every order the main worktree comes first: where the collection holds a
/// main worktree, the first position of the display order holds one.
pub proof fn lemma_main_is_first(ws: Seq<WorktreeView>, order: SortOrder, r: Seq<usize>, main: int)
    requires
        is_display_order(ws, order, r),
        0 <= main < ws.len(),
        ws[main].is_main,
    ensures
        ws[r[0] as int].is_main,
{
    let keys = sort_keys(order, ws);
    assert(lists(r, main));
    let p = choose|p: int| 0 <= p < r.len() && #[trigger] r[p] == main;
    if p > 0 {
        assert(shown_before(keys, r[0] as int, r[p] as int));
    }
}

/// A collection has one display order only.
pub proof fn lemma_display_order_unique(
    ws: Seq<WorktreeView>,
    order: SortOrder,
    a: Seq<usize>,
    b: Seq<usize>,
)
    requires
        is_display_order(ws, order, a),
        is_display_order(ws, order, b),
    ensures
        a == b,
{
    lemma_sorted_order_unique(sort_keys(order, ws), a, b);
}

} // verus!
