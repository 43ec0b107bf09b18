//! The branches offered in the dialogs.
//!
//! The create dialog offers every branch of the repository, local ones
//! first. The merge dialog offers the branches that are checked out in some
//! worktree, `main` and `master` first and the rest in alphabetical order.

use crate::index::IndexView;
use crate::model::{Branch, BranchView, WorktreeView};
use crate::ordering::{is_sorted_order, lemma_sorted_order_unique, sort_positions, OrderKey, SortKey};
use crate::state::{App, AppView};
use crate::text::{chars_of, is_substring, str_contains, str_equal};
use vstd::prelude::*;

verus! {

/// A local branch as read from the repository.
#[derive(Debug, PartialEq, Eq)]
pub struct LocalBranch {
    /// The short name.
    pub name: String,
    /// HEAD points at this branch.
    pub is_head: bool,
}

/// What a [`LocalBranch`] holds.
pub ghost struct LocalBranchView {
    pub name: Seq<char>,
    pub is_head: bool,
}

impl View for LocalBranch {
    type V = LocalBranchView;

    open spec fn view(&self) -> LocalBranchView {
        LocalBranchView { name: self.name@, is_head: self.is_head }
    }
}

impl DeepView for LocalBranch {
    type V = LocalBranchView;

    open spec fn deep_view(&self) -> LocalBranchView {
        self@
    }
}

// ---------------------------------------------------------------------------
// The create dialog
// ---------------------------------------------------------------------------

/// The choices for the first `k` local branches, in the order read.
pub open spec fn local_choices(local: Seq<LocalBranchView>, k: int) -> Seq<BranchView>
    decreases k,
{
    if k <= 0 {
        Seq::empty()
    } else {
        local_choices(local, k - 1).push(
            BranchView { name: local[k - 1].name, is_remote: false, is_current: local[k - 1].is_head },
        )
    }
}

/// The choices for the first `k` remote branches, in the order read. A name
/// that holds `HEAD` is no branch to choose and is left out.
pub open spec fn remote_choices(remote: Seq<Seq<char>>, k: int) -> Seq<BranchView>
    decreases k,
{
    if k <= 0 {
        Seq::empty()
    } else if is_substring(remote[k - 1], "HEAD"@) {
        remote_choices(remote, k - 1)
    } else {
        remote_choices(remote, k - 1).push(
            BranchView { name: remote[k - 1], is_remote: true, is_current: false },
        )
    }
}

/// The branches offered in the create dialog: the local ones, then the
/// remote ones.
pub open spec fn branch_choices(local: Seq<LocalBranchView>, remote: Seq<Seq<char>>) -> Seq<
    BranchView,
> {
    local_choices(local, local.len() as int) + remote_choices(remote, remote.len() as int)
}

// ---------------------------------------------------------------------------
// The merge dialog
// ---------------------------------------------------------------------------

/// Some branch of `branches` has the name `name`.
pub open spec fn has_name(branches: Seq<BranchView>, name: Seq<char>) -> bool {
    exists|i: int| 0 <= i < branches.len() && (#[trigger] branches[i]).name == name
}

/// The branches checked out in the first `k` worktrees in display order,
/// each once, in the order in which they are met. A branch counts as current
/// where it is the main worktree that has it.
pub open spec fn active_branches(ws: Seq<WorktreeView>, order: Seq<usize>, k: int) -> Seq<
    BranchView,
>
    decreases k,
{
    if k <= 0 {
        Seq::empty()
    } else {
        let earlier = active_branches(ws, order, k - 1);
        let w = ws[order[k - 1] as int];
        match w.branch {
            Some(name) => if has_name(earlier, name) {
                earlier
            } else {
                earlier.push(BranchView { name, is_remote: false, is_current: w.is_main })
            },
            None => earlier,
        }
    }
}

/// What the branches of the merge dialog are ordered by: `main` and `master`
/// before all others, then the name.
pub open spec fn merge_key(branch: BranchView) -> SortKey {
    SortKey {
        group: if branch.name == "main"@ || branch.name == "master"@ {
            0
        } else {
            1
        },
        rank: 0,
        name: branch.name,
    }
}

/// The keys of all of `branches`.
pub open spec fn merge_keys(branches: Seq<BranchView>) -> Seq<SortKey> {
    Seq::new(branches.len(), |i: int| merge_key(branches[i]))
}

/// The branches of `branches` in the order in which `r` lists their
/// positions.
pub open spec fn arranged(branches: Seq<BranchView>, r: Seq<usize>) -> Seq<BranchView> {
    Seq::new(branches.len(), |i: int| branches[r[i] as int])
}

/// `sorted` holds the branches of `branches` in the order of the merge
/// dialog.
pub open spec fn is_merge_order(branches: Seq<BranchView>, sorted: Seq<BranchView>) -> bool {
    exists|r: Seq<usize>| #[trigger]
        is_sorted_order(merge_keys(branches), r) && sorted == arranged(branches, r)
}

/// The choices of the merge dialog for the index `v`.
pub open spec fn merge_choices(v: IndexView) -> Seq<BranchView> {
    choose|sorted: Seq<BranchView>|
        is_merge_order(active_branches(v.worktrees, v.order, v.order.len() as int), sorted)
}

/// Branches have one merge order only.
pub proof fn lemma_merge_order_unique(
    branches: Seq<BranchView>,
    a: Seq<BranchView>,
    b: Seq<BranchView>,
)
    requires
        is_merge_order(branches, a),
        is_merge_order(branches, b),
    ensures
        a == b,
{
    let ra = choose|r: Seq<usize>| #[trigger]
        is_sorted_order(merge_keys(branches), r) && a == arranged(branches, r);
    let rb = choose|r: Seq<usize>| #[trigger]
        is_sorted_order(merge_keys(branches), r) && b == arranged(branches, r);
    lemma_sorted_order_unique(merge_keys(branches), ra, rb);
}

fn holds_name(branches: &Vec<Branch>, name: &String) -> (r: bool)
    ensures
        r == has_name(branches.deep_view(), name@),
{
    let mut i: usize = 0;
    while i < branches.len()
        invariant
            i <= branches.len(),
            forall|j: int| 0 <= j < i ==> (#[trigger] branches.deep_view()[j]).name != name@,
        decreases branches.len() - i,
    {
        if branches[i].name == *name {
            assert(branches.deep_view()[i as int].name == name@);
            return true;
        }
        i += 1;
    }
    false
}

fn branch_key(branch: &Branch) -> (r: OrderKey)
    ensures
        r@ == merge_key(branch@),
{
    let leading = str_equal(branch.name.as_str(), "main") || str_equal(
        branch.name.as_str(),
        "master",
    );
    OrderKey {
        group: if leading {
            0
        } else {
            1
        },
        rank: 0,
        name: chars_of(branch.name.as_str()),
    }
}

impl App {
    /// Takes over the branches read from the repository as the choices of
    /// the create dialog.
    pub fn refresh_branches(&mut self, local: Vec<LocalBranch>, remote: Vec<String>)
        ensures
            final(self)@ == (AppView {
                available_branches: branch_choices(local.deep_view(), remote.deep_view()),
                ..old(self)@
            }),
    {
        let mut branches: Vec<Branch> = Vec::new();
        assert(branches.deep_view() =~= local_choices(local.deep_view(), 0));
        for b in it: local
            invariant
                it.seq() == local@,
                branches.deep_view() == local_choices(local.deep_view(), it.index()),
        {
            let ghost before = branches.deep_view();
            assert(b@ == local.deep_view()[it.index()]);
            let choice = Branch { name: b.name, is_remote: false, is_current: b.is_head };
            branches.push(choice);
            assert(branches.deep_view() =~= before.push(choice@));
        }
        let ghost locals = branches.deep_view();
        assert(locals =~= locals + remote_choices(remote.deep_view(), 0));
        for name in it: remote
            invariant
                it.seq() == remote@,
                branches.deep_view() == locals + remote_choices(remote.deep_view(), it.index()),
        {
            let ghost before = branches.deep_view();
            assert(name@ == remote.deep_view()[it.index()]);
            if !str_contains(name.as_str(), "HEAD") {
                let choice = Branch { name, is_remote: true, is_current: false };
                branches.push(choice);
                assert(branches.deep_view() =~= before.push(choice@));
            }
        }
        self.available_branches = branches;
    }

    /// Makes the branches that are checked out in some worktree the choices
    /// of the merge dialog.
    pub fn refresh_merge_branches(&mut self)
        ensures
            is_merge_order(
                active_branches(
                    old(self)@.index.worktrees,
                    old(self)@.index.order,
                    old(self)@.index.order.len() as int,
                ),
                final(self)@.available_branches,
            ),
            final(self)@ == (AppView {
                available_branches: merge_choices(old(self)@.index),
                ..old(self)@
            }),
    {
        let worktrees = self.index.worktrees();
        let order = self.index.order();
        let ghost ws = worktrees.deep_view();
        proof {
            crate::index::lemma_order_in_range(self@.index);
        }
        let mut found: Vec<Branch> = Vec::new();
        assert(found.deep_view() =~= active_branches(ws, order@, 0));
        let mut k: usize = 0;
        while k < order.len()
            invariant
                k <= order.len(),
                ws == worktrees.deep_view(),
                forall|p: int| 0 <= p < order.len() ==> #[trigger] order[p] < worktrees.len(),
                found.deep_view() == active_branches(ws, order@, k as int),
            decreases order.len() - k,
        {
            let ghost before = found.deep_view();
            let w = &worktrees[order[k]];
            assert(ws[order[k as int] as int] == w@);
            match &w.branch {
                Some(name) => {
                    if !holds_name(&found, name) {
                        let choice = Branch {
                            name: name.clone(),
                            is_remote: false,
                            is_current: w.is_main,
                        };
                        found.push(choice);
                        assert(found.deep_view() =~= before.push(choice@));
                    }
                },
                None => {},
            }
            k += 1;
        }
        let mut keys: Vec<OrderKey> = Vec::new();
        let mut i: usize = 0;
        while i < found.len()
            invariant
                i <= found.len(),
                keys.len() == i,
                forall|j: int| 0 <= j < i ==> (#[trigger] keys[j])@ == merge_key(found[j]@),
            decreases found.len() - i,
        {
            keys.push(branch_key(&found[i]));
            i += 1;
        }
        let ghost key_views = merge_keys(found.deep_view());
        assert(keys.deep_view() =~= key_views);
        let r = sort_positions(&keys);
        let mut sorted: Vec<Branch> = Vec::new();
        let mut p: usize = 0;
        while p < r.len()
            invariant
                p <= r.len(),
                r.len() == found.len(),
                sorted.len() == p,
                is_sorted_order(key_views, r@),
                key_views.len() == found.len(),
                forall|j: int| 0 <= j < p ==> (#[trigger] sorted[j])@ == found[r[j] as int]@,
            decreases r.len() - p,
        {
            sorted.push(found[r[p]].clone());
            p += 1;
        }
        proof {
            assert(sorted.deep_view() =~= arranged(found.deep_view(), r@));
            assert(is_merge_order(found.deep_view(), sorted.deep_view()));
            lemma_merge_order_unique(
                found.deep_view(),
                sorted.deep_view(),
                merge_choices(self@.index),
            );
        }
        self.available_branches = sorted;
    }
}

} // verus!
