//! The split tree of a workspace: leaves are panes, named by id; an inner node
//! splits its area between two subtrees. Removing a pane promotes its
//! sibling; replacing a pane puts a subtree in its place.
use vstd::prelude::*;
use crate::layout_state::SplitOrientation;

verus! {

/// A node of the split tree. A split's ratio is carried as the bits of its
/// `f64`.
#[derive(Debug)]
pub enum SplitNode {
    Leaf { pane: u64 },
    Split { orientation: SplitOrientation, ratio_bits: u64, left: Box<SplitNode>, right: Box<SplitNode> },
}

/// The panes of a tree, left to right.
pub open spec fn leaves(n: SplitNode) -> Seq<u64>
    decreases n,
{
    match n {
        SplitNode::Leaf { pane } => seq![pane],
        SplitNode::Split { left, right, .. } => leaves(*left) + leaves(*right),
    }
}

pub open spec fn first_leaf_of(n: SplitNode) -> u64
    decreases n,
{
    match n {
        SplitNode::Leaf { pane } => pane,
        SplitNode::Split { left, .. } => first_leaf_of(*left),
    }
}

pub open spec fn is_leaf_of(n: SplitNode, t: u64) -> bool {
    n matches SplitNode::Leaf { pane } && pane == t
}

/// The first pane of the sibling subtree that removing `t` would promote.
pub open spec fn sibling_of(n: SplitNode, t: u64) -> Option<u64>
    decreases n,
{
    match n {
        SplitNode::Leaf { .. } => None,
        SplitNode::Split { left, right, .. } => if is_leaf_of(*left, t) {
            Some(first_leaf_of(*right))
        } else if is_leaf_of(*right, t) {
            Some(first_leaf_of(*left))
        } else {
            match sibling_of(*left, t) {
                Some(x) => Some(x),
                None => sibling_of(*right, t),
            }
        },
    }
}

/// The tree with pane `t` removed, its sibling promoted into the parent's
/// place; and whether it was found. A lone leaf is never removed.
pub open spec fn removed(n: SplitNode, t: u64) -> (SplitNode, bool)
    decreases n,
{
    match n {
        SplitNode::Leaf { .. } => (n, false),
        SplitNode::Split { orientation, ratio_bits, left, right } => if is_leaf_of(*left, t) {
            (*right, true)
        } else if is_leaf_of(*right, t) {
            (*left, true)
        } else {
            let (l2, a) = removed(*left, t);
            if a {
                (SplitNode::Split { orientation, ratio_bits, left: Box::new(l2), right }, true)
            } else {
                let (r2, b) = removed(*right, t);
                (SplitNode::Split { orientation, ratio_bits, left, right: Box::new(r2) }, b)
            }
        },
    }
}

/// The tree with the leaf of pane `t` replaced by `rep` (following the
/// subtree that holds `t`); and whether it was found.
pub open spec fn replaced(n: SplitNode, t: u64, rep: SplitNode) -> (SplitNode, bool)
    decreases n,
{
    match n {
        SplitNode::Leaf { pane } => if pane == t { (rep, true) } else { (n, false) },
        SplitNode::Split { orientation, ratio_bits, left, right } => if leaves(*left).contains(t) {
            let (l2, a) = replaced(*left, t, rep);
            (SplitNode::Split { orientation, ratio_bits, left: Box::new(l2), right }, a)
        } else {
            let (r2, b) = replaced(*right, t, rep);
            (SplitNode::Split { orientation, ratio_bits, left, right: Box::new(r2) }, b)
        },
    }
}

pub proof fn lemma_leaves_nonempty(n: SplitNode)
    ensures
        leaves(n).len() >= 1,
        leaves(n)[0] == first_leaf_of(n),
    decreases n,
{
    if let SplitNode::Split { left, right, .. } = n {
        lemma_leaves_nonempty(*left);
        lemma_leaves_nonempty(*right);
    }
}

/// A removal that finds nothing leaves the tree as it was.
pub proof fn lemma_removed_unchanged(n: SplitNode, t: u64)
    ensures
        !removed(n, t).1 ==> removed(n, t).0 == n,
    decreases n,
{
    if let SplitNode::Split { left, right, .. } = n {
        lemma_removed_unchanged(*left, t);
        lemma_removed_unchanged(*right, t);
    }
}

impl SplitNode {
    pub fn is_leaf(&self) -> (r: bool)
        ensures
            r == (*self is Leaf),
    {
        match self {
            SplitNode::Leaf { .. } => true,
            SplitNode::Split { .. } => false,
        }
    }

    /// Whether pane `target` is a leaf of this tree.
    pub fn contains_pane(&self, target: u64) -> (r: bool)
        ensures
            r == leaves(*self).contains(target),
        decreases self,
    {
        match self {
            SplitNode::Leaf { pane } => {
                proof { if *pane != target { assert(!seq![*pane].contains(target)) by { assert(seq![*pane][0] == *pane); } } else { assert(seq![*pane][0] == target); } }
                *pane == target
            },
            SplitNode::Split { left, right, .. } => {
                let a = left.contains_pane(target);
                let b = right.contains_pane(target);
                proof {
                    let (l, r) = (leaves(**left), leaves(**right));
                    if a {
                        let i = choose|i: int| 0 <= i < l.len() && l[i] == target;
                        assert((l + r)[i] == target);
                    } else if b {
                        let i = choose|i: int| 0 <= i < r.len() && r[i] == target;
                        assert((l + r)[l.len() + i] == target);
                    } else {
                        assert forall|i: int| 0 <= i < (l + r).len() implies (l + r)[i] != target by {
                            if i < l.len() { assert((l + r)[i] == l[i]); } else { assert((l + r)[i] == r[i - l.len()]); }
                        }
                    }
                }
                a || b
            },
        }
    }

    /// The leftmost pane.
    pub fn first_leaf(&self) -> (r: u64)
        ensures
            r == first_leaf_of(*self),
            r == leaves(*self)[0],
        decreases self,
    {
        proof { lemma_leaves_nonempty(*self); }
        match self {
            SplitNode::Leaf { pane } => *pane,
            SplitNode::Split { left, .. } => left.first_leaf(),
        }
    }

    fn leaf_is(&self, target: u64) -> (r: bool)
        ensures
            r == is_leaf_of(*self, target),
    {
        match self {
            SplitNode::Leaf { pane } => *pane == target,
            SplitNode::Split { .. } => false,
        }
    }

    /// The pane to focus when `target` is removed; see `sibling_of`.
    pub fn sibling_first_leaf(&self, target: u64) -> (r: Option<u64>)
        ensures
            r == sibling_of(*self, target),
        decreases self,
    {
        match self {
            SplitNode::Leaf { .. } => None,
            SplitNode::Split { left, right, .. } => {
                if left.leaf_is(target) {
                    Some(right.first_leaf())
                } else if right.leaf_is(target) {
                    Some(left.first_leaf())
                } else {
                    match left.sibling_first_leaf(target) {
                        Some(x) => Some(x),
                        None => right.sibling_first_leaf(target),
                    }
                }
            },
        }
    }

    fn removed_owned(self, target: u64) -> (r: (SplitNode, bool))
        ensures
            r == removed(self, target),
        decreases self,
    {
        match self {
            SplitNode::Leaf { pane } => (SplitNode::Leaf { pane }, false),
            SplitNode::Split { orientation, ratio_bits, left, right } => {
                if left.leaf_is(target) {
                    (*right, true)
                } else if right.leaf_is(target) {
                    (*left, true)
                } else {
                    proof { lemma_removed_unchanged(*left, target); }
                    let (l2, a) = (*left).removed_owned(target);
                    if a {
                        (SplitNode::Split { orientation, ratio_bits, left: Box::new(l2), right }, true)
                    } else {
                        let (r2, b) = (*right).removed_owned(target);
                        (SplitNode::Split { orientation, ratio_bits, left: Box::new(l2), right: Box::new(r2) }, b)
                    }
                }
            },
        }
    }

    fn replaced_owned(self, target: u64, replacement: SplitNode) -> (r: (SplitNode, bool))
        ensures
            r == replaced(self, target, replacement),
        decreases self,
    {
        match self {
            SplitNode::Leaf { pane } => {
                if pane == target {
                    (replacement, true)
                } else {
                    (SplitNode::Leaf { pane }, false)
                }
            },
            SplitNode::Split { orientation, ratio_bits, left, right } => {
                if left.contains_pane(target) {
                    let (l2, a) = (*left).replaced_owned(target, replacement);
                    (SplitNode::Split { orientation, ratio_bits, left: Box::new(l2), right }, a)
                } else {
                    let (r2, b) = (*right).replaced_owned(target, replacement);
                    (SplitNode::Split { orientation, ratio_bits, left, right: Box::new(r2) }, b)
                }
            },
        }
    }

    /// Removes pane `target`, promoting its sibling; see `removed`.
    pub fn remove(&mut self, target: u64) -> (r: bool)
        ensures
            (*final(self), r) == removed(*old(self), target),
    {
        let mut taken = SplitNode::Leaf { pane: 0 };
        std::mem::swap(&mut taken, self);
        let (n, found) = taken.removed_owned(target);
        *self = n;
        found
    }

    /// Puts `replacement` in place of the leaf of pane `target`; see `replaced`.
    pub fn replace(&mut self, target: u64, replacement: SplitNode) -> (r: bool)
        ensures
            (*final(self), r) == replaced(*old(self), target, replacement),
    {
        let mut taken = SplitNode::Leaf { pane: 0 };
        std::mem::swap(&mut taken, self);
        let (n, found) = taken.replaced_owned(target, replacement);
        *self = n;
        found
    }
}


proof fn lemma_removed_found(n: SplitNode, t: u64)
    ensures
        removed(n, t).1 ==> leaves(n).contains(t),
    decreases n,
{
    if let SplitNode::Split { left, right, .. } = n {
        lemma_removed_found(*left, t);
        lemma_removed_found(*right, t);
        let (l, r) = (leaves(*left), leaves(*right));
        if is_leaf_of(*left, t) {
            assert((l + r)[0] == l[0]);
        } else if is_leaf_of(*right, t) {
            assert((l + r)[l.len() as int] == r[0]);
        } else if removed(*left, t).1 {
            let i = choose|i: int| 0 <= i < l.len() && l[i] == t;
            assert((l + r)[i] == t);
        } else if removed(*right, t).1 {
            let i = choose|i: int| 0 <= i < r.len() && r[i] == t;
            assert((l + r)[l.len() + i] == t);
        }
    }
}

/// In a tree whose panes are distinct, removing a pane that is not the lone
/// leaf removes exactly that pane and keeps the others in order.
pub proof fn law_remove_drops_exactly_the_pane(n: SplitNode, t: u64, i: int)
    requires
        n is Split,
        leaves(n).no_duplicates(),
        0 <= i < leaves(n).len(),
        leaves(n)[i] == t,
    ensures
        removed(n, t).1,
        leaves(removed(n, t).0) == leaves(n).remove(i),
    decreases n,
{
    if let SplitNode::Split { left, right, .. } = n {
        let (l, r) = (leaves(*left), leaves(*right));
        let all = l + r;
        assert(all == leaves(n));
        lemma_leaves_nonempty(*left);
        lemma_leaves_nonempty(*right);
        if is_leaf_of(*left, t) {
            assert(l =~= seq![t]);
            assert(all[0] == t);
            assert(i == 0);
            assert(all.remove(0) =~= r);
        } else if is_leaf_of(*right, t) {
            assert(r =~= seq![t]);
            assert(all[l.len() as int] == t);
            assert(i == l.len());
            assert(all.remove(i) =~= l);
        } else if i < l.len() {
            assert(l[i] == t);
            if let SplitNode::Leaf { pane } = *left {
                assert(l[0] == pane);
                assert(false);
            }
            assert(l.no_duplicates()) by {
                assert forall|a: int, b: int| 0 <= a < l.len() && 0 <= b < l.len() && a != b implies l[a] != l[b] by {
                    assert(all[a] == l[a] && all[b] == l[b]);
                }
            }
            law_remove_drops_exactly_the_pane(*left, t, i);
            assert(all.remove(i) =~= l.remove(i) + r);
        } else {
            let j = i - l.len();
            assert(r[j] == t);
            assert(!l.contains(t)) by {
                if l.contains(t) {
                    let k = choose|k: int| 0 <= k < l.len() && l[k] == t;
                    assert(all[k] == t);
                    assert(all[i] == t);
                }
            }
            lemma_removed_found(*left, t);
            lemma_removed_unchanged(*left, t);
            if let SplitNode::Leaf { pane } = *right {
                assert(r[0] == pane);
                assert(false);
            }
            assert(r.no_duplicates()) by {
                assert forall|a: int, b: int| 0 <= a < r.len() && 0 <= b < r.len() && a != b implies r[a] != r[b] by {
                    assert(all[l.len() + a] == r[a] && all[l.len() + b] == r[b]);
                }
            }
            law_remove_drops_exactly_the_pane(*right, t, j);
            assert(all.remove(i) =~= l + r.remove(j));
        }
    }
}

/// In a tree whose panes are distinct, replacing a pane puts the
/// replacement's panes exactly where that pane was.
pub proof fn law_replace_puts_subtree_in_place(n: SplitNode, t: u64, rep: SplitNode, i: int)
    requires
        leaves(n).no_duplicates(),
        0 <= i < leaves(n).len(),
        leaves(n)[i] == t,
    ensures
        replaced(n, t, rep).1,
        leaves(replaced(n, t, rep).0) == leaves(n).take(i) + leaves(rep) + leaves(n).skip(i + 1),
    decreases n,
{
    match n {
        SplitNode::Leaf { pane } => {
            assert(leaves(n) =~= seq![pane]);
            assert(leaves(n).take(0) + leaves(rep) + leaves(n).skip(1) =~= leaves(rep));
        },
        SplitNode::Split { left, right, .. } => {
            let (l, r) = (leaves(*left), leaves(*right));
            let all = l + r;
            if i < l.len() {
                assert(l[i] == t);
                assert(l.contains(t));
                assert(l.no_duplicates()) by {
                    assert forall|a: int, b: int| 0 <= a < l.len() && 0 <= b < l.len() && a != b implies l[a] != l[b] by {
                        assert(all[a] == l[a] && all[b] == l[b]);
                    }
                }
                law_replace_puts_subtree_in_place(*left, t, rep, i);
                assert(all.take(i) + leaves(rep) + all.skip(i + 1) =~= (l.take(i) + leaves(rep) + l.skip(i + 1)) + r);
            } else {
                let j = i - l.len();
                assert(r[j] == t);
                assert(!l.contains(t)) by {
                    if l.contains(t) {
                        let k = choose|k: int| 0 <= k < l.len() && l[k] == t;
                        assert(all[k] == t);
                        assert(all[i] == t);
                    }
                }
                assert(r.no_duplicates()) by {
                    assert forall|a: int, b: int| 0 <= a < r.len() && 0 <= b < r.len() && a != b implies r[a] != r[b] by {
                        assert(all[l.len() + a] == r[a] && all[l.len() + b] == r[b]);
                    }
                }
                law_replace_puts_subtree_in_place(*right, t, rep, j);
                assert(all.take(i) + leaves(rep) + all.skip(i + 1) =~= l + (r.take(j) + leaves(rep) + r.skip(j + 1)));
            }
        },
    }
}

} // verus!
