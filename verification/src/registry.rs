//! The registry of persons and the index of tree nodes kept beside it.

use std::collections::HashMap;
use vstd::prelude::*;
use vstd::std_specs::hash::*;
use vstd::std_specs::iter::IteratorSpec;

use crate::error::FamilyError;
use crate::person::{
    default_person, person_id, Address, Gender, MaritalStatus, Person, PersonView,
};
use crate::tree::{with_child, Tree, TreeNode};

verus! {

/// The tree of a node without children.
pub open spec fn leaf(id: u64) -> Tree<u64> {
    Tree { value: id, children: Seq::empty() }
}

/// The index after `child` was offered to the node of `parent`: the child is
/// appended there unless an equal child is present; an id without a node
/// changes nothing.
pub open spec fn attached(tree: Map<u64, Tree<u64>>, parent: u64, child: Tree<u64>) -> Map<
    u64,
    Tree<u64>,
> {
    if tree.contains_key(parent) {
        tree.insert(parent, with_child(tree[parent], child))
    } else {
        tree
    }
}

/// `attached` for a parent that may be missing.
pub open spec fn attached_to(tree: Map<u64, Tree<u64>>, parent: Option<u64>, child: Tree<u64>) -> Map<
    u64,
    Tree<u64>,
> {
    match parent {
        Some(p) => attached(tree, p, child),
        None => tree,
    }
}

/// The index after `person` was registered under an id that was free: the
/// id has a node without children, which is then offered as a child to the
/// node of the recorded mother and to that of the recorded father.
pub open spec fn tree_after_registration(tree: Map<u64, Tree<u64>>, person: PersonView) -> Map<
    u64,
    Tree<u64>,
> {
    let id = person.info.id;
    attached_to(attached_to(tree.insert(id, leaf(id)), person.mother, leaf(id)), person.father, leaf(id))
}

/// What a [`PersonManager`] holds: the records by id, and for each id the
/// tree of its node in the index.
pub struct RegistryView {
    pub persons: Map<u64, PersonView>,
    pub tree: Map<u64, Tree<u64>>,
}

impl RegistryView {
    /// The invariant of the registry: the records are finitely many, each is
    /// kept under its own id, the index has a node for exactly the registered
    /// ids, and each node carries its id and no child twice.
    pub open spec fn wf(self) -> bool {
        &&& self.persons.dom().finite()
        &&& self.tree.dom() == self.persons.dom()
        &&& forall|id: u64| #[trigger]
            self.persons.contains_key(id) ==> self.persons[id].info.id == id
        &&& forall|id: u64| #[trigger]
            self.tree.contains_key(id) ==> self.tree[id].value == id
                && self.tree[id].children.no_duplicates()
    }

    /// The ids of the root persons: registered, with neither mother nor
    /// father recorded.
    pub open spec fn root_ids(self) -> Set<u64> {
        Set::new(|id: u64| self.persons.contains_key(id) && !self.persons[id].has_parent())
    }

    /// What a check of `parent_id` as a parent of `person_id` finds, where
    /// the role asks for the gender `expected`: a person is not their own
    /// parent, both must be registered, and the parent must have the gender.
    pub open spec fn parent_check(self, person_id: u64, parent_id: u64, expected: Gender) -> Result<
        (),
        FamilyError,
    > {
        if person_id == parent_id {
            Err(FamilyError::SelfReference)
        } else if !self.persons.contains_key(person_id) {
            Err(FamilyError::NotFound { id: person_id })
        } else if !self.persons.contains_key(parent_id) {
            Err(FamilyError::NotFound { id: parent_id })
        } else if self.persons[parent_id].info.gender != expected {
            Err(FamilyError::InvalidRoleForGender { expected, id: parent_id })
        } else {
            Ok(())
        }
    }

    /// What a check of `a` and `b` as a couple to be married finds: both must
    /// be registered, and their gender tags must differ.
    pub open spec fn marriage_check(self, a: u64, b: u64) -> Result<(), FamilyError> {
        if !self.persons.contains_key(a) {
            Err(FamilyError::NotFound { id: a })
        } else if !self.persons.contains_key(b) {
            Err(FamilyError::NotFound { id: b })
        } else if self.persons[a].info.gender == self.persons[b].info.gender {
            Err(FamilyError::SameGenderMarriage)
        } else {
            Ok(())
        }
    }

    /// The registry in which the person `id` has the mother `mother`.
    pub open spec fn with_mother(self, id: u64, mother: u64) -> RegistryView {
        RegistryView {
            persons: self.persons.insert(
                id,
                PersonView { mother: Some(mother), ..self.persons[id] },
            ),
            ..self
        }
    }

    /// The registry in which the person `id` has the father `father`.
    pub open spec fn with_father(self, id: u64, father: u64) -> RegistryView {
        RegistryView {
            persons: self.persons.insert(
                id,
                PersonView { father: Some(father), ..self.persons[id] },
            ),
            ..self
        }
    }

    /// The registry in which the person `id` has the status `status`.
    pub open spec fn with_status(self, id: u64, status: MaritalStatus) -> RegistryView {
        RegistryView {
            persons: self.persons.insert(
                id,
                PersonView { marital_status: status, ..self.persons[id] },
            ),
            ..self
        }
    }
}

/// The registry: the person records by id, and an index that holds for each
/// id a node with the children attached to it so far.
#[derive(Debug)]
pub struct PersonManager {
    persons: HashMap<u64, Person>,
    tree: HashMap<u64, TreeNode<u64>>,
}

impl View for PersonManager {
    type V = RegistryView;

    closed spec fn view(&self) -> RegistryView {
        RegistryView {
            persons: self.persons@.map_values(|p: Person| p@),
            tree: self.tree@.map_values(|n: TreeNode<u64>| n@),
        }
    }
}

impl Default for PersonManager {
    /// The empty registry.
    fn default() -> (manager: PersonManager)
        ensures
            manager.wf(),
            manager@.persons == Map::<u64, PersonView>::empty(),
            manager@.tree == Map::<u64, Tree<u64>>::empty(),
    {
        PersonManager::new()
    }
}

impl PersonManager {
    /// The invariant that every operation keeps: see [`RegistryView::wf`].
    pub open spec fn wf(&self) -> bool {
        self@.wf()
    }

    /// The empty registry.
    pub fn new() -> (manager: PersonManager)
        ensures
            manager.wf(),
            manager@.persons == Map::<u64, PersonView>::empty(),
            manager@.tree == Map::<u64, Tree<u64>>::empty(),
    {
        let manager = PersonManager { persons: HashMap::new(), tree: HashMap::new() };
        assert(manager@.persons =~= Map::<u64, PersonView>::empty());
        assert(manager@.tree =~= Map::<u64, Tree<u64>>::empty());
        manager
    }

    /// The record kept under `id`, if there is one.
    pub fn get_person(&self, id: u64) -> (person: Option<&Person>)
        ensures
            match person {
                Some(p) => self@.persons.contains_key(id) && self@.persons[id] == p@,
                None => !self@.persons.contains_key(id),
            },
    {
        self.persons.get(&id)
    }

    /// All records by id.
    pub fn get_persons(&self) -> (persons: &HashMap<u64, Person>)
        ensures
            persons@.map_values(|p: Person| p@) == self@.persons,
    {
        &self.persons
    }

    /// The node kept in the index under `id`, if there is one.
    pub fn get_node(&self, id: u64) -> (node: Option<&TreeNode<u64>>)
        ensures
            match node {
                Some(n) => self@.tree.contains_key(id) && self@.tree[id] == n@,
                None => !self@.tree.contains_key(id),
            },
    {
        self.tree.get(&id)
    }

    /// The ids of all registered persons, each once, in the order in which
    /// the map walks them.
    pub fn ids(&self) -> (ids: Vec<u64>)
        ensures
            ids@.no_duplicates(),
            ids@.to_set() == self@.persons.dom(),
    {
        let mut ids: Vec<u64> = Vec::new();
        for key in iter: self.persons.keys()
            invariant
                ids@.len() == iter.index(),
                forall|j: int| 0 <= j < ids@.len() ==> ids@[j] == *iter.seq()[j],
        {
            ids.push(*key);
        }
        assert(ids@ =~= spec_keys_iter(&self.persons).remaining().unref());
        ids
    }

    /// Offers `child` to the node of `parent_id`: it is appended to the
    /// children unless a child standing for the same tree is there already.
    /// Where `parent_id` has no node, nothing happens.
    pub fn attach_child(&mut self, parent_id: u64, child: TreeNode<u64>)
        requires
            old(self).wf(),
        ensures
            final(self).wf(),
            final(self)@.persons == old(self)@.persons,
            final(self)@.tree == attached(old(self)@.tree, parent_id, child@),
    {
        match self.tree.remove(&parent_id) {
            Some(mut node) => {
                node.add_child(child);
                self.tree.insert(parent_id, node);
                assert(self@.tree =~= attached(old(self)@.tree, parent_id, child@));
            },
            None => {
                assert(self@.tree =~= attached(old(self)@.tree, parent_id, child@));
            },
        }
    }

    /// Registers `person` under its id. Where a record is kept under that id
    /// already, nothing changes: neither the record nor the index. Otherwise
    /// the record is kept, the index gets a node without children for the
    /// id, and this node is offered as a child to the nodes of the mother
    /// and of the father that `person` records.
    pub fn add_person(&mut self, person: &Person)
        requires
            old(self).wf(),
        ensures
            final(self).wf(),
            old(self)@.persons.contains_key(person@.info.id) ==> final(self)@ == old(self)@,
            !old(self)@.persons.contains_key(person@.info.id) ==> {
                &&& final(self)@.persons == old(self)@.persons.insert(person@.info.id, person@)
                &&& final(self)@.tree == tree_after_registration(old(self)@.tree, person@)
            },
    {
        let id = person.get_id();
        if self.persons.contains_key(&id) {
            return ;
        }
        self.persons.insert(id, person.clone());
        self.tree.insert(id, TreeNode::new(id));
        assert(self@.persons =~= old(self)@.persons.insert(id, person@));
        assert(self@.tree =~= old(self)@.tree.insert(id, leaf(id)));
        assert(self@.tree.dom() =~= self@.persons.dom());
        match person.mother_id() {
            Some(mother) => self.attach_child(mother, TreeNode::new(id)),
            None => {},
        }
        match person.father_id() {
            Some(father) => self.attach_child(father, TreeNode::new(id)),
            None => {},
        }
    }

    /// Registers the single, parentless person with these names, birth date
    /// and gender at the empty address, as `add_person` does: where the id
    /// is taken, nothing changes. Returns the id.
    pub fn add_person_str(
        &mut self,
        lastname: &str,
        firstname: &str,
        birthday: &str,
        gender: Gender,
    ) -> (id: u64)
        requires
            old(self).wf(),
        ensures
            final(self).wf(),
            id == person_id(firstname@, lastname@, birthday@),
            old(self)@.persons.contains_key(id) ==> final(self)@ == old(self)@,
            !old(self)@.persons.contains_key(id) ==> {
                &&& final(self)@.persons == old(self)@.persons.insert(
                    id,
                    default_person(lastname@, firstname@, birthday@, gender),
                )
                &&& final(self)@.tree == old(self)@.tree.insert(id, leaf(id))
            },
    {
        let person = Person::default(lastname, firstname, birthday, gender);
        let id = person.get_id();
        self.add_person(&person);
        id
    }

    /// Checks `parent_id` as a parent of `person_id` for the role that asks
    /// for the gender `expected`.
    fn check_parent(&self, person_id: u64, parent_id: u64, expected: Gender) -> (found: Result<
        (),
        FamilyError,
    >)
        ensures
            found == self@.parent_check(person_id, parent_id, expected),
    {
        if person_id == parent_id {
            return Err(FamilyError::SelfReference);
        }
        if !self.persons.contains_key(&person_id) {
            return Err(FamilyError::NotFound { id: person_id });
        }
        match self.persons.get(&parent_id) {
            None => Err(FamilyError::NotFound { id: parent_id }),
            Some(parent) => {
                if parent.get_gender() == expected {
                    Ok(())
                } else {
                    Err(FamilyError::InvalidRoleForGender { expected, id: parent_id })
                }
            },
        }
    }

    /// Records `mother_id` as the mother of `person_id`. This fails, and
    /// changes nothing, where the two ids are the same, where one of them is
    /// not registered, or where the mother is not female. The index is left
    /// as it is: a node is attached only when a person is registered.
    pub fn set_mother(&mut self, person_id: u64, mother_id: u64) -> (done: Result<(), FamilyError>)
        requires
            old(self).wf(),
        ensures
            final(self).wf(),
            done == old(self)@.parent_check(person_id, mother_id, Gender::Female),
            person_id == mother_id ==> done == Err::<(), FamilyError>(FamilyError::SelfReference),
            done is Ok ==> final(self)@ == old(self)@.with_mother(person_id, mother_id),
            done is Err ==> final(self)@ == old(self)@,
    {
        match self.check_parent(person_id, mother_id, Gender::Female) {
            Err(e) => Err(e),
            Ok(()) => {
                let mut person = self.persons.remove(&person_id).unwrap();
                person.set_mother(mother_id);
                self.persons.insert(person_id, person);
                assert(self@.persons =~= old(self)@.with_mother(person_id, mother_id).persons);
                assert(self@.tree.dom() =~= self@.persons.dom());
                Ok(())
            },
        }
    }

    /// Records `father_id` as the father of `person_id`. This fails, and
    /// changes nothing, where the two ids are the same, where one of them is
    /// not registered, or where the father is not male. The index is left as
    /// it is.
    pub fn set_father(&mut self, person_id: u64, father_id: u64) -> (done: Result<(), FamilyError>)
        requires
            old(self).wf(),
        ensures
            final(self).wf(),
            done == old(self)@.parent_check(person_id, father_id, Gender::Male),
            person_id == father_id ==> done == Err::<(), FamilyError>(FamilyError::SelfReference),
            done is Ok ==> final(self)@ == old(self)@.with_father(person_id, father_id),
            done is Err ==> final(self)@ == old(self)@,
    {
        match self.check_parent(person_id, father_id, Gender::Male) {
            Err(e) => Err(e),
            Ok(()) => {
                let mut person = self.persons.remove(&person_id).unwrap();
                person.set_father(father_id);
                self.persons.insert(person_id, person);
                assert(self@.persons =~= old(self)@.with_father(person_id, father_id).persons);
                assert(self@.tree.dom() =~= self@.persons.dom());
                Ok(())
            },
        }
    }

    /// Records both parents of `person_id`: first the father, then the
    /// mother. Where the father is refused, nothing changes and the mother is
    /// not looked at. Where the father is accepted and the mother refused,
    /// the father stays recorded and the mother's refusal is returned.
    pub fn set_parent(&mut self, person_id: u64, mother_id: u64, father_id: u64) -> (done: Result<
        (),
        FamilyError,
    >)
        requires
            old(self).wf(),
        ensures
            final(self).wf(),
            match old(self)@.parent_check(person_id, father_id, Gender::Male) {
                Err(e) => done == Err::<(), FamilyError>(e) && final(self)@ == old(self)@,
                Ok(()) => {
                    &&& done == old(self)@.parent_check(person_id, mother_id, Gender::Female)
                    &&& done is Err ==> final(self)@ == old(self)@.with_father(
                        person_id,
                        father_id,
                    )
                    &&& done is Ok ==> final(self)@ == old(self)@.with_father(
                        person_id,
                        father_id,
                    ).with_mother(person_id, mother_id)
                },
            },
    {
        match self.set_father(person_id, father_id) {
            Err(e) => Err(e),
            Ok(()) => self.set_mother(person_id, mother_id),
        }
    }

    /// Overwrites the marital status of `person_id`; the status is taken as
    /// it comes, whoever it names. Fails where the id is not registered.
    pub fn update_marital_status(&mut self, person_id: u64, marital_status: MaritalStatus) -> (done:
        Result<(), FamilyError>)
        requires
            old(self).wf(),
        ensures
            final(self).wf(),
            old(self)@.persons.contains_key(person_id) ==> done is Ok && final(self)@ == old(
                self,
            )@.with_status(person_id, marital_status),
            !old(self)@.persons.contains_key(person_id) ==> done == Err::<(), FamilyError>(
                FamilyError::NotFound { id: person_id },
            ) && final(self)@ == old(self)@,
    {
        match self.persons.remove(&person_id) {
            None => {
                assert(self@.persons =~= old(self)@.persons);
                Err(FamilyError::NotFound { id: person_id })
            },
            Some(mut person) => {
                person.set_marital_status(marital_status);
                self.persons.insert(person_id, person);
                assert(self@.persons =~= old(self)@.with_status(
                    person_id,
                    marital_status,
                ).persons);
                assert(self@.tree.dom() =~= self@.persons.dom());
                Ok(())
            },
        }
    }

    /// The marital status of `person_id`, if the id is registered.
    pub fn get_person_marital_status(&self, person_id: u64) -> (status: Option<MaritalStatus>)
        ensures
            status == (if self@.persons.contains_key(person_id) {
                Some(self@.persons[person_id].marital_status)
            } else {
                None
            }),
    {
        match self.persons.get(&person_id) {
            Some(person) => Some(person.get_marital_status()),
            None => None,
        }
    }

    /// Checks `p1_id` and `p2_id` as a couple to be married.
    fn check_marriage(&self, p1_id: u64, p2_id: u64) -> (found: Result<(), FamilyError>)
        ensures
            found == self@.marriage_check(p1_id, p2_id),
    {
        match self.persons.get(&p1_id) {
            None => Err(FamilyError::NotFound { id: p1_id }),
            Some(person1) => match self.persons.get(&p2_id) {
                None => Err(FamilyError::NotFound { id: p2_id }),
                Some(person2) => {
                    if person1.get_gender() == person2.get_gender() {
                        Err(FamilyError::SameGenderMarriage)
                    } else {
                        Ok(())
                    }
                },
            },
        }
    }

    /// Marries `p1_id` and `p2_id`: each gets the status `Married` that names
    /// the other. This fails, and changes nothing, where one of the two is
    /// not registered or where both carry the same gender tag.
    pub fn marry(&mut self, p1_id: u64, p2_id: u64) -> (done: Result<(), FamilyError>)
        requires
            old(self).wf(),
        ensures
            final(self).wf(),
            done == old(self)@.marriage_check(p1_id, p2_id),
            done is Ok ==> {
                &&& final(self)@ == old(self)@.with_status(
                    p1_id,
                    MaritalStatus::Married(p2_id),
                ).with_status(p2_id, MaritalStatus::Married(p1_id))
                &&& final(self)@.persons[p1_id].marital_status == MaritalStatus::Married(p2_id)
                &&& final(self)@.persons[p2_id].marital_status == MaritalStatus::Married(p1_id)
            },
            done is Err ==> final(self)@ == old(self)@,
    {
        match self.check_marriage(p1_id, p2_id) {
            Err(e) => Err(e),
            Ok(()) => {
                let first = self.update_marital_status(p1_id, MaritalStatus::Married(p2_id));
                let second = self.update_marital_status(p2_id, MaritalStatus::Married(p1_id));
                Ok(())
            },
        }
    }

    /// Replaces the address of `person_id`. Where the id is not registered,
    /// nothing happens and nothing is reported.
    pub fn set_address(&mut self, person_id: u64, new_address: Address)
        requires
            old(self).wf(),
        ensures
            final(self).wf(),
            final(self)@.tree == old(self)@.tree,
            final(self)@.persons == (if old(self)@.persons.contains_key(person_id) {
                old(self)@.persons.insert(
                    person_id,
                    PersonView { address: new_address@, ..old(self)@.persons[person_id] },
                )
            } else {
                old(self)@.persons
            }),
    {
        match self.persons.remove(&person_id) {
            None => {
                assert(self@.persons =~= old(self)@.persons);
            },
            Some(mut person) => {
                person.set_address(new_address);
                self.persons.insert(person_id, person);
                assert(self@.persons =~= old(self)@.persons.insert(
                    person_id,
                    PersonView { address: new_address@, ..old(self)@.persons[person_id] },
                ));
                assert(self@.tree.dom() =~= self@.persons.dom());
            },
        }
    }
}

} // verus!
