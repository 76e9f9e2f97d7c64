//! The family tree over the registered persons, and the ascent from a person
//! to the root ancestors.

use std::collections::HashSet;
use vstd::prelude::*;
use vstd::set_lib::*;
use vstd::std_specs::hash::*;

use crate::error::FamilyError;
use crate::person::{ancestor_id, Person};
use crate::registry::{PersonManager, RegistryView};
use crate::tree::{Tree, TreeNode};
use crate::utils::{lemma_merged_unique, merged_unique, remove_duplicated};

verus! {

impl RegistryView {
    /// Whether `tree` is the family tree of this registry. With exactly one
    /// root person it is that person's node of the index. Otherwise it is a
    /// placeholder node whose children are the nodes of the root persons,
    /// each once, in some order.
    pub open spec fn is_family_tree(self, tree: Tree<u64>) -> bool {
        if self.root_ids().len() == 1 {
            self.root_ids().contains(tree.value) && tree == self.tree[tree.value]
        } else {
            &&& tree.value == ancestor_id()
            &&& exists|order: Seq<u64>|
                {
                    &&& #[trigger] order.no_duplicates()
                    &&& order.to_set() == self.root_ids()
                    &&& tree.children == order.map_values(|id: u64| self.tree[id])
                }
        }
    }
}

/// The outcome of an ascent: the root ancestors found, in the order of their
/// discovery, and the ids visited by then.
pub struct Ascent {
    pub roots: Seq<u64>,
    pub visited: Set<u64>,
}

impl RegistryView {
    /// Whether `id` ends an ascent: no record is kept under it, or the record
    /// names neither mother nor father.
    pub open spec fn ends_ascent(self, id: u64) -> bool {
        !self.persons.contains_key(id) || !self.persons[id].has_parent()
    }

    /// The ids that an ascent can still enter: registered and not in
    /// `visited`.
    pub open spec fn unvisited(self, visited: Set<u64>) -> Set<u64> {
        self.persons.dom().difference(visited)
    }

    /// The ascent from `id` when the ids in `visited` have been visited
    /// before. The id is marked as visited first. Where the ascent ends at
    /// `id`, `id` is the one root found. Otherwise the mother's branch is
    /// walked and then the father's, which sees what the mother's branch
    /// visited, and the roots of both are merged: those of the mother's
    /// branch first, none twice.
    pub open spec fn ascent(self, id: u64, visited: Set<u64>) -> Ascent
        decreases self.unvisited(visited.insert(id)).len(), 1nat,
        when self.persons.dom().finite()
    {
        let marked = visited.insert(id);
        if self.ends_ascent(id) {
            Ascent { roots: seq![id], visited: marked }
        } else {
            let mother = self.branch(self.persons[id].mother, marked);
            proof {
                lemma_len_subset(
                    self.unvisited(marked.union(mother.visited)),
                    self.unvisited(marked),
                );
            }
            let father = self.branch(self.persons[id].father, marked.union(mother.visited));
            Ascent { roots: merged_unique(mother.roots, father.roots), visited: father.visited }
        }
    }

    /// The ascent into a parent: nothing is found and nothing changes where
    /// no parent is recorded or the parent has been visited before. A parent
    /// under whose id no record is kept is marked as visited and found as a
    /// root itself.
    pub open spec fn branch(self, parent: Option<u64>, visited: Set<u64>) -> Ascent
        decreases self.unvisited(visited).len(), 0nat,
        when self.persons.dom().finite()
    {
        match parent {
            Some(p) => if visited.contains(p) {
                Ascent { roots: Seq::empty(), visited }
            } else if !self.persons.contains_key(p) {
                Ascent { roots: seq![p], visited: visited.insert(p) }
            } else {
                proof {
                    assert(self.unvisited(visited.insert(p)) =~= self.unvisited(visited).remove(
                        p,
                    ));
                }
                self.ascent(p, visited)
            },
            None => Ascent { roots: Seq::empty(), visited },
        }
    }
}

/// An ascent forgets nothing: what was visited before stays visited, and the
/// id it starts from is visited too.
pub proof fn lemma_ascent_keeps_visited(registry: RegistryView, id: u64, visited: Set<u64>)
    requires
        registry.persons.dom().finite(),
    ensures
        visited.insert(id).subset_of(registry.ascent(id, visited).visited),
    decreases registry.unvisited(visited.insert(id)).len(), 1nat,
{
    let marked = visited.insert(id);
    if !registry.ends_ascent(id) {
        let mother = registry.branch(registry.persons[id].mother, marked);
        lemma_branch_keeps_visited(registry, registry.persons[id].mother, marked);
        lemma_len_subset(
            registry.unvisited(marked.union(mother.visited)),
            registry.unvisited(marked),
        );
        lemma_branch_keeps_visited(
            registry,
            registry.persons[id].father,
            marked.union(mother.visited),
        );
    }
}

/// An ascent into a parent forgets nothing that was visited before.
pub proof fn lemma_branch_keeps_visited(
    registry: RegistryView,
    parent: Option<u64>,
    visited: Set<u64>,
)
    requires
        registry.persons.dom().finite(),
    ensures
        visited.subset_of(registry.branch(parent, visited).visited),
    decreases registry.unvisited(visited).len(), 0nat,
{
    match parent {
        Some(p) => {
            if !visited.contains(p) && registry.persons.contains_key(p) {
                assert(registry.unvisited(visited.insert(p)) =~= registry.unvisited(
                    visited,
                ).remove(p));
                lemma_ascent_keeps_visited(registry, p, visited);
            }
        },
        None => {},
    }
}

/// An ascent returns no root twice.
pub proof fn lemma_ascent_roots_unique(registry: RegistryView, id: u64, visited: Set<u64>)
    requires
        registry.persons.dom().finite(),
    ensures
        registry.ascent(id, visited).roots.no_duplicates(),
{
    if !registry.ends_ascent(id) {
        let marked = visited.insert(id);
        let mother = registry.branch(registry.persons[id].mother, marked);
        let father = registry.branch(registry.persons[id].father, marked.union(mother.visited));
        lemma_merged_unique(mother.roots, father.roots);
    }
}

/// Every root that an ascent returns ends the ascent: no record is kept
/// under it, or the record names no parent.
pub proof fn lemma_ascent_roots_end(registry: RegistryView, id: u64, visited: Set<u64>)
    requires
        registry.persons.dom().finite(),
    ensures
        forall|x: u64| registry.ascent(id, visited).roots.contains(x) ==> registry.ends_ascent(x),
    decreases registry.unvisited(visited.insert(id)).len(), 1nat,
{
    let marked = visited.insert(id);
    if !registry.ends_ascent(id) {
        let mother = registry.branch(registry.persons[id].mother, marked);
        let father = registry.branch(registry.persons[id].father, marked.union(mother.visited));
        lemma_branch_roots_end(registry, registry.persons[id].mother, marked);
        lemma_len_subset(
            registry.unvisited(marked.union(mother.visited)),
            registry.unvisited(marked),
        );
        lemma_branch_roots_end(registry, registry.persons[id].father, marked.union(mother.visited));
        lemma_merged_unique(mother.roots, father.roots);
    } else {
        assert forall|x: u64| seq![id].contains(x) implies x == id by {
            let i = choose|i: int| 0 <= i < seq![id].len() && seq![id][i] == x;
        }
    }
}

/// Every root that an ascent into a parent returns ends the ascent.
pub proof fn lemma_branch_roots_end(registry: RegistryView, parent: Option<u64>, visited: Set<u64>)
    requires
        registry.persons.dom().finite(),
    ensures
        forall|x: u64|
            registry.branch(parent, visited).roots.contains(x) ==> registry.ends_ascent(x),
    decreases registry.unvisited(visited).len(), 0nat,
{
    match parent {
        Some(p) => {
            if visited.contains(p) {
            } else if !registry.persons.contains_key(p) {
                assert forall|x: u64| seq![p].contains(x) implies x == p by {
                    let i = choose|i: int| 0 <= i < seq![p].len() && seq![p][i] == x;
                }
            } else {
                assert(registry.unvisited(visited.insert(p)) =~= registry.unvisited(
                    visited,
                ).remove(p));
                lemma_ascent_roots_end(registry, p, visited);
            }
        },
        None => {},
    }
}

/// Whoever ends the ascent and is visited for the first time during an
/// ascent is among the roots that it returns.
pub proof fn lemma_ascent_finds_new_roots(registry: RegistryView, id: u64, visited: Set<u64>)
    requires
        registry.persons.dom().finite(),
    ensures
        forall|x: u64|
            registry.ascent(id, visited).visited.contains(x) && !visited.contains(x)
                && registry.ends_ascent(x) ==> registry.ascent(id, visited).roots.contains(x),
    decreases registry.unvisited(visited.insert(id)).len(), 1nat,
{
    let marked = visited.insert(id);
    if !registry.ends_ascent(id) {
        let mother = registry.branch(registry.persons[id].mother, marked);
        let father = registry.branch(registry.persons[id].father, marked.union(mother.visited));
        lemma_branch_finds_new_roots(registry, registry.persons[id].mother, marked);
        lemma_len_subset(
            registry.unvisited(marked.union(mother.visited)),
            registry.unvisited(marked),
        );
        lemma_branch_finds_new_roots(
            registry,
            registry.persons[id].father,
            marked.union(mother.visited),
        );
        lemma_merged_unique(mother.roots, father.roots);
    } else {
        assert(seq![id][0] == id);
    }
}

/// Whoever ends the ascent and is visited for the first time during an
/// ascent into a parent is among the roots that it returns.
pub proof fn lemma_branch_finds_new_roots(
    registry: RegistryView,
    parent: Option<u64>,
    visited: Set<u64>,
)
    requires
        registry.persons.dom().finite(),
    ensures
        forall|x: u64|
            registry.branch(parent, visited).visited.contains(x) && !visited.contains(x)
                && registry.ends_ascent(x) ==> registry.branch(parent, visited).roots.contains(x),
    decreases registry.unvisited(visited).len(), 0nat,
{
    match parent {
        Some(p) => {
            if visited.contains(p) {
            } else if !registry.persons.contains_key(p) {
                assert(seq![p][0] == p);
            } else {
                assert(registry.unvisited(visited.insert(p)) =~= registry.unvisited(
                    visited,
                ).remove(p));
                lemma_ascent_finds_new_roots(registry, p, visited);
            }
        },
        None => {},
    }
}

/// The ascent from a person returns a recorded parent of that person who
/// has no recorded parents and was not visited before.
pub proof fn lemma_ascent_finds_parent_root(
    registry: RegistryView,
    child: u64,
    root: u64,
    visited: Set<u64>,
)
    requires
        registry.persons.dom().finite(),
        registry.persons.contains_key(child),
        registry.persons[child].mother == Some(root) || registry.persons[child].father == Some(
            root,
        ),
        registry.ends_ascent(root),
        !visited.contains(root),
    ensures
        registry.ascent(child, visited).roots.contains(root),
{
    let marked = visited.insert(child);
    let person = registry.persons[child];
    let mother = registry.branch(person.mother, marked);
    let seen = marked.union(mother.visited);
    let father = registry.branch(person.father, seen);
    lemma_merged_unique(mother.roots, father.roots);
    assert(seq![root][0] == root);
    if person.mother == Some(root) {
        assert(mother.roots.contains(root));
    } else {
        if seen.contains(root) {
            lemma_branch_finds_new_roots(registry, person.mother, marked);
            assert(mother.roots.contains(root));
        } else {
            assert(father.roots.contains(root));
        }
    }
}

/// A grandparent whom both parents of a person name as a parent, and who
/// has no recorded parents, is returned by the ascent from that person
/// exactly once. This holds where the grandparent was not visited before and
/// at least one of the two parents was not.
pub proof fn lemma_common_grandparent_once(
    registry: RegistryView,
    person: u64,
    mother: u64,
    father: u64,
    grandparent: u64,
    visited: Set<u64>,
)
    requires
        registry.wf(),
        registry.persons.contains_key(person),
        registry.persons.contains_key(mother),
        registry.persons.contains_key(father),
        registry.persons[person].mother == Some(mother),
        registry.persons[person].father == Some(father),
        registry.persons[mother].mother == Some(grandparent) || registry.persons[mother].father
            == Some(grandparent),
        registry.persons[father].mother == Some(grandparent) || registry.persons[father].father
            == Some(grandparent),
        registry.ends_ascent(grandparent),
        !visited.contains(grandparent),
        !visited.contains(mother) || !visited.contains(father),
    ensures
        registry.ascent(person, visited).roots.contains(grandparent),
        registry.ascent(person, visited).roots.no_duplicates(),
{
    lemma_ascent_roots_unique(registry, person, visited);
    let marked = visited.insert(person);
    let via_mother = registry.branch(Some(mother), marked);
    let seen = marked.union(via_mother.visited);
    let via_father = registry.branch(Some(father), seen);
    lemma_merged_unique(via_mother.roots, via_father.roots);
    if !marked.contains(mother) {
        lemma_ascent_finds_parent_root(registry, mother, grandparent, marked);
    } else {
        assert(seen =~= marked);
        // the father is another person: else the grandparent, being a parent
        // of the father, would be the mother, who names a parent herself
        assert(father != person);
        lemma_ascent_finds_parent_root(registry, father, grandparent, seen);
    }
}

impl PersonManager {
    /// The ascent from the registered person `id`.
    fn ascend(&self, id: u64, visited: &mut HashSet<u64>) -> (roots: Vec<u64>)
        requires
            self.wf(),
            self@.persons.contains_key(id),
        ensures
            roots@ == self@.ascent(id, old(visited)@).roots,
            final(visited)@ == self@.ascent(id, old(visited)@).visited,
        decreases self@.unvisited(old(visited)@.insert(id)).len(), 1nat,
    {
        visited.insert(id);
        let ghost marked = visited@;
        let person = self.get_person(id).unwrap();
        if !person.has_parent() {
            let mut roots: Vec<u64> = Vec::new();
            roots.push(id);
            assert(roots@ =~= seq![id]);
            return roots;
        }
        let mother_roots = self.ascend_into(person.mother_id(), visited);
        proof {
            lemma_branch_keeps_visited(self@, self@.persons[id].mother, marked);
            assert(marked.union(visited@) =~= visited@);
            lemma_len_subset(self@.unvisited(visited@), self@.unvisited(marked));
        }
        let father_roots = self.ascend_into(person.father_id(), visited);
        remove_duplicated(&mother_roots, &father_roots)
    }

    /// The ascent into a parent that may be missing or visited already.
    fn ascend_into(&self, parent: Option<u64>, visited: &mut HashSet<u64>) -> (roots: Vec<u64>)
        requires
            self.wf(),
        ensures
            roots@ == self@.branch(parent, old(visited)@).roots,
            final(visited)@ == self@.branch(parent, old(visited)@).visited,
        decreases self@.unvisited(old(visited)@).len(), 0nat,
    {
        match parent {
            None => Vec::new(),
            Some(p) => {
                if visited.contains(&p) {
                    Vec::new()
                } else if self.get_person(p).is_none() {
                    visited.insert(p);
                    let mut roots: Vec<u64> = Vec::new();
                    roots.push(p);
                    assert(roots@ =~= seq![p]);
                    roots
                } else {
                    proof {
                        assert(self@.unvisited(visited@.insert(p)) =~= self@.unvisited(
                            visited@,
                        ).remove(p));
                    }
                    self.ascend(p, visited)
                }
            },
        }
    }

    /// The root ancestors of `person_id`: the persons without recorded
    /// parents that the ascent through mothers and fathers arrives at, each
    /// once, in the order of discovery, the mother's side first. A person
    /// without recorded parents is their own root. Every id that the ascent
    /// enters is added to `visited`, and a parent that is in `visited`
    /// already is not entered again, so the ascent ends even where the links
    /// run in a circle. A parent id under which no record is kept counts as
    /// a root. Fails where `person_id` itself is not registered.
    pub fn get_root_parents(&self, person_id: u64, visited: &mut HashSet<u64>) -> (roots: Result<
        Vec<u64>,
        FamilyError,
    >)
        requires
            self.wf(),
        ensures
            match roots {
                Ok(found) => {
                    &&& self@.persons.contains_key(person_id)
                    &&& found@ == self@.ascent(person_id, old(visited)@).roots
                    &&& final(visited)@ == self@.ascent(person_id, old(visited)@).visited
                    &&& found@.no_duplicates()
                },
                Err(e) => {
                    &&& !self@.persons.contains_key(person_id)
                    &&& e == (FamilyError::NotFound { id: person_id })
                    &&& final(visited)@ == old(visited)@
                },
            },
            self@.persons.contains_key(person_id) && !self@.persons[person_id].has_parent() ==> {
                &&& roots matches Ok(found) && found@ == seq![person_id]
                &&& final(visited)@ == old(visited)@.insert(person_id)
            },
    {
        if self.get_person(person_id).is_none() {
            return Err(FamilyError::NotFound { id: person_id });
        }
        proof {
            lemma_ascent_roots_unique(self@, person_id, visited@);
        }
        Ok(self.ascend(person_id, visited))
    }

    /// The family tree: nothing for an empty registry; the node of the root
    /// person where there is exactly one; else a placeholder node above the
    /// nodes of all root persons.
    pub fn build_family_tree(&self) -> (root: Option<TreeNode<u64>>)
        requires
            self.wf(),
        ensures
            root is None <==> self@.persons.dom().len() == 0,
            root matches Some(node) ==> self@.is_family_tree(node@),
    {
        let ids = self.ids();
        proof {
            ids@.unique_seq_to_set();
        }
        if ids.len() == 0 {
            return None;
        }
        let mut root_nodes: Vec<TreeNode<u64>> = Vec::new();
        let ghost mut order: Seq<u64> = Seq::empty();
        let mut i: usize = 0;
        while i < ids.len()
            invariant
                self.wf(),
                ids@.no_duplicates(),
                ids@.to_set() == self@.persons.dom(),
                0 <= i <= ids@.len(),
                order.no_duplicates(),
                forall|id: u64|
                    order.contains(id) <==> (ids@.take(i as int).contains(id)
                        && self@.root_ids().contains(id)),
                root_nodes@.len() == order.len(),
                forall|j: int|
                    0 <= j < order.len() ==> (#[trigger] root_nodes@[j])@ == self@.tree[order[j]],
            decreases ids@.len() - i,
        {
            let id = ids[i];
            assert(ids@.to_set().contains(id));
            assert(self@.tree.dom().contains(id));
            proof {
                assert(ids@.take(i + 1) =~= ids@.take(i as int).push(id));
                assert(!ids@.take(i as int).contains(id)) by {
                    if ids@.take(i as int).contains(id) {
                        let k = choose|k: int|
                            0 <= k < ids@.take(i as int).len() && ids@.take(i as int)[k] == id;
                        assert(ids@[k] == ids@[i as int]);
                    }
                }
                assert forall|x: u64|
                    ids@.take(i + 1).contains(x) <==> (ids@.take(i as int).contains(x) || x
                        == id) by {
                    if ids@.take(i as int).contains(x) {
                        let k = choose|k: int|
                            0 <= k < ids@.take(i as int).len() && ids@.take(i as int)[k] == x;
                        assert(ids@.take(i + 1)[k] == x);
                    }
                    if x == id {
                        assert(ids@.take(i + 1)[i as int] == x);
                    }
                }
            }
            let person = self.get_person(id).unwrap();
            if !person.has_parent() {
                let node = self.get_node(id).unwrap().clone();
                root_nodes.push(node);
                proof {
                    let before = order;
                    order = order.push(id);
                    assert(!before.contains(id));
                    assert forall|a: int, b: int|
                        0 <= a < order.len() && 0 <= b < order.len() && a != b implies order[a]
                        != order[b] by {
                        if a < before.len() {
                            assert(before.contains(before[a]));
                        }
                        if b < before.len() {
                            assert(before.contains(before[b]));
                        }
                    }
                    assert forall|x: u64|
                        order.contains(x) <==> (before.contains(x) || x == id) by {
                        if before.contains(x) {
                            let k = choose|k: int| 0 <= k < before.len() && before[k] == x;
                            assert(order[k] == x);
                        }
                        if x == id {
                            assert(order[before.len() as int] == x);
                        }
                    }
                }
            }
            i += 1;
        }
        proof {
            assert(ids@.take(i as int) =~= ids@);
            assert(order.to_set() =~= self@.root_ids());
            order.unique_seq_to_set();
        }
        if root_nodes.len() == 1 {
            let node = root_nodes.pop().unwrap();
            proof {
                assert(order.contains(order[0]));
            }
            Some(node)
        } else {
            let placeholder = Person::ancestor();
            let node = TreeNode { value: placeholder.get_id(), children: root_nodes };
            proof {
                assert(node@.children =~= order.map_values(|id: u64| self@.tree[id]));
            }
            Some(node)
        }
    }
}

} // verus!
