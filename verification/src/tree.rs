//! Rooted trees with ordered children.

use vstd::prelude::*;

use crate::utils::eq_is_identity;

verus! {

/// The mathematical tree that a [`TreeNode`] stands for: a value and the
/// sequence of the children's trees.
pub struct Tree<V> {
    pub value: V,
    pub children: Seq<Tree<V>>,
}

/// A value plus an ordered list of child nodes.
#[derive(Debug, PartialEq, Eq)]
pub struct TreeNode<T> {
    pub value: T,
    pub children: Vec<TreeNode<T>>,
}

/// The tree that `node` stands for.
pub open spec fn tree_of<T>(node: TreeNode<T>) -> Tree<T>
    decreases node,
{
    Tree {
        value: node.value,
        children: Seq::new(
            node.children@.len(),
            |i: int|
                if 0 <= i < node.children@.len() {
                    tree_of(node.children@[i])
                } else {
                    arbitrary()
                },
        ),
    }
}

impl<T> View for TreeNode<T> {
    type V = Tree<T>;

    open spec fn view(&self) -> Tree<T> {
        tree_of(*self)
    }
}

/// The tree that has `child` appended to the children of `tree` unless an
/// equal child is already there.
pub open spec fn with_child<V>(tree: Tree<V>, child: Tree<V>) -> Tree<V> {
    if tree.children.contains(child) {
        tree
    } else {
        Tree { value: tree.value, children: tree.children.push(child) }
    }
}

impl<T> TreeNode<T> {
    /// A node without children.
    pub fn new(value: T) -> (node: TreeNode<T>)
        ensures
            node@ == (Tree { value, children: Seq::empty() }),
    {
        let node = TreeNode { value, children: Vec::new() };
        assert(node@.children =~= Seq::empty());
        node
    }
}

impl<T: Copy> Clone for TreeNode<T> {
    /// A deep copy: the clone stands for the same tree.
    fn clone(&self) -> (copy: TreeNode<T>)
        ensures
            copy@ == self@,
        decreases self,
    {
        let mut children: Vec<TreeNode<T>> = Vec::new();
        let n = self.children.len();
        let mut i: usize = 0;
        while i < n
            invariant
                n == self.children@.len(),
                0 <= i <= n,
                children@.len() == i,
                forall|j: int| 0 <= j < i ==> children@[j]@ == self@.children[j],
            decreases n - i,
        {
            let child = self.children[i].clone();
            children.push(child);
            i += 1;
        }
        let copy = TreeNode { value: self.value, children };
        assert(copy@.children =~= self@.children);
        copy
    }
}

impl<T: PartialEq> TreeNode<T> {
    /// Whether two nodes stand for the same tree: equal values and pairwise
    /// equal children, in order.
    pub fn same_tree(&self, other: &TreeNode<T>) -> (same: bool)
        requires
            eq_is_identity::<T>(),
        ensures
            same == (self@ == other@),
        decreases self,
    {
        if !(self.value == other.value) {
            return false;
        }
        let n = self.children.len();
        if n != other.children.len() {
            assert(self@.children.len() != other@.children.len());
            return false;
        }
        let mut i: usize = 0;
        while i < n
            invariant
                eq_is_identity::<T>(),
                n == self.children@.len(),
                n == other.children@.len(),
                0 <= i <= n,
                forall|j: int| 0 <= j < i ==> self@.children[j] == other@.children[j],
            decreases n - i,
        {
            if !self.children[i].same_tree(&other.children[i]) {
                assert(self@.children[i as int] != other@.children[i as int]);
                return false;
            }
            i += 1;
        }
        assert(self@.children =~= other@.children);
        true
    }

    /// Appends `child` unless a child standing for the same tree is already
    /// present; the value and the other children stay as they are.
    pub fn add_child(&mut self, child: TreeNode<T>)
        requires
            eq_is_identity::<T>(),
        ensures
            final(self)@ == with_child(old(self)@, child@),
            old(self)@.children.no_duplicates() ==> final(self)@.children.no_duplicates(),
    {
        let n = self.children.len();
        let mut i: usize = 0;
        while i < n
            invariant
                eq_is_identity::<T>(),
                n == self.children@.len(),
                *self == *old(self),
                0 <= i <= n,
                forall|j: int| 0 <= j < i ==> self@.children[j] != child@,
            decreases n - i,
        {
            if self.children[i].same_tree(&child) {
                assert(self@.children[i as int] == child@);
                return ;
            }
            i += 1;
        }
        self.children.push(child);
        assert(self@.children =~= old(self)@.children.push(child@));
    }
}

} // verus!
