//! Person records: identity, gender, address, marital status and the ids of
//! the recorded parents.

use std::collections::hash_map::DefaultHasher;
use std::hash::{Hash, Hasher};
use vstd::prelude::*;
use vstd::std_specs::hash::*;
use vstd::string::*;

verus! {

/// The gender tag of a person.
#[derive(Debug, Clone, Copy, PartialEq, Eq, Structural)]
pub enum Gender {
    Male,
    Female,
}

/// The marital status of a person; every status but `Single` names the id of
/// the (former) spouse.
#[derive(Debug, Clone, Copy, PartialEq, Eq, Structural)]
pub enum MaritalStatus {
    Single,
    Married(u64),
    Divorced(u64),
    Widowed(u64),
}

/// A postal address.
#[derive(Debug, PartialEq, Eq)]
pub struct Address {
    pub street: String,
    pub city: String,
    pub state: String,
    pub country: String,
    pub postal_code: String,
}

/// The texts of an [`Address`].
pub struct AddressView {
    pub street: Seq<char>,
    pub city: Seq<char>,
    pub state: Seq<char>,
    pub country: Seq<char>,
    pub postal_code: Seq<char>,
}

impl View for Address {
    type V = AddressView;

    open spec fn view(&self) -> AddressView {
        AddressView {
            street: self.street@,
            city: self.city@,
            state: self.state@,
            country: self.country@,
            postal_code: self.postal_code@,
        }
    }
}

/// The address whose five texts are all empty.
pub open spec fn empty_address() -> AddressView {
    AddressView {
        street: Seq::empty(),
        city: Seq::empty(),
        state: Seq::empty(),
        country: Seq::empty(),
        postal_code: Seq::empty(),
    }
}

impl Address {
    /// The empty address.
    pub fn new() -> (address: Address)
        ensures
            address@ == empty_address(),
    {
        Address {
            street: String::new(),
            city: String::new(),
            state: String::new(),
            country: String::new(),
            postal_code: String::new(),
        }
    }
}

impl Clone for Address {
    /// An equal address.
    fn clone(&self) -> (copy: Address)
        ensures
            copy == *self,
    {
        Address {
            street: self.street.clone(),
            city: self.city.clone(),
            state: self.state.clone(),
            country: self.country.clone(),
            postal_code: self.postal_code.clone(),
        }
    }
}

impl Default for Address {
    /// The empty address.
    fn default() -> (address: Address)
        ensures
            address@ == empty_address(),
    {
        Address::new()
    }
}

/// What hashing the text `text` feeds to a hasher: the byte runs written,
/// in order.
pub uninterp spec fn str_hash_writes(text: Seq<char>) -> Seq<Seq<u8>>;

/// `<str as Hash>::hash` on a `DefaultHasher`: the hasher receives the
/// writes that the text determines, after those it already holds. Which bytes
/// these are is left to the standard library.
#[verifier::external_body]
fn hash_str(text: &str, state: &mut DefaultHasher)
    ensures
        final(state)@ == old(state)@ + str_hash_writes(text@),
{
    text.hash(state);
}

/// The identifier of the person with the given names and birth date: the
/// digest of the three texts written one after the other.
pub open spec fn person_id(firstname: Seq<char>, lastname: Seq<char>, birthday: Seq<char>) -> u64 {
    DefaultHasher::spec_finish(str_hash_writes(firstname + lastname + birthday))
}

/// The identity of a person: the id and the three texts it is derived from,
/// plus the gender tag.
#[derive(Debug, PartialEq, Eq)]
pub struct PersonInfo {
    id: u64,
    firstname: String,
    lastname: String,
    birthday: String,
    gender: Gender,
}

/// The content of a [`PersonInfo`].
pub struct PersonInfoView {
    pub id: u64,
    pub firstname: Seq<char>,
    pub lastname: Seq<char>,
    pub birthday: Seq<char>,
    pub gender: Gender,
}

impl View for PersonInfo {
    type V = PersonInfoView;

    closed spec fn view(&self) -> PersonInfoView {
        PersonInfoView {
            id: self.id,
            firstname: self.firstname@,
            lastname: self.lastname@,
            birthday: self.birthday@,
            gender: self.gender,
        }
    }
}

impl PersonInfo {
    /// The id always is the one derived from the names and the birth date.
    #[verifier::type_invariant]
    spec fn id_is_derived(&self) -> bool {
        self.id == person_id(self.firstname@, self.lastname@, self.birthday@)
    }

    /// The identity with the given texts and gender, and the id derived from
    /// the texts.
    pub fn new(firstname: &str, lastname: &str, birthday: &str, gender: Gender) -> (info:
        PersonInfo)
        ensures
            info@ == (PersonInfoView {
                id: person_id(firstname@, lastname@, birthday@),
                firstname: firstname@,
                lastname: lastname@,
                birthday: birthday@,
                gender,
            }),
    {
        PersonInfo {
            id: PersonInfo::generate_id(firstname, lastname, birthday),
            firstname: String::from_str(firstname),
            lastname: String::from_str(lastname),
            birthday: String::from_str(birthday),
            gender,
        }
    }

    /// The id of the person with these names and this birth date. It depends
    /// on the three texts alone; different persons may share an id.
    pub fn generate_id(firstname: &str, lastname: &str, birthday: &str) -> (id: u64)
        ensures
            id == person_id(firstname@, lastname@, birthday@),
    {
        let mut hasher = DefaultHasher::new();
        let input = String::from_str(firstname).concat(lastname).concat(birthday);
        hash_str(input.as_str(), &mut hasher);
        assert(hasher@ =~= str_hash_writes(firstname@ + lastname@ + birthday@));
        hasher.finish()
    }

    /// The id, which in every identity is the one derived from its texts.
    pub fn get_id(&self) -> (id: u64)
        ensures
            id == self@.id,
            id == person_id(self@.firstname, self@.lastname, self@.birthday),
    {
        proof {
            use_type_invariant(self);
        }
        self.id
    }
}

impl Clone for PersonInfo {
    /// An equal identity.
    fn clone(&self) -> (copy: PersonInfo)
        ensures
            copy == *self,
    {
        proof {
            use_type_invariant(self);
        }
        PersonInfo {
            id: self.id,
            firstname: self.firstname.clone(),
            lastname: self.lastname.clone(),
            birthday: self.birthday.clone(),
            gender: self.gender,
        }
    }
}

impl Gender {
    /// The colour that graph descriptions draw a person of this gender in.
    pub open spec fn color_text(self) -> Seq<char> {
        match self {
            Gender::Female => "red"@,
            Gender::Male => "blue"@,
        }
    }

    /// The colour of a person's node: red for female, blue for male.
    pub fn get_color(&self) -> (color: String)
        ensures
            color@ == self.color_text(),
    {
        match self {
            Gender::Female => String::from_str("red"),
            Gender::Male => String::from_str("blue"),
        }
    }

    /// The shape tag of a gender, which carries the same two names as the
    /// colour: `red` for female, `blue` for male.
    pub fn get_shape(&self) -> (shape: String)
        ensures
            shape@ == self.color_text(),
    {
        match self {
            Gender::Female => String::from_str("red"),
            Gender::Male => String::from_str("blue"),
        }
    }
}

impl MaritalStatus {
    /// The id that the status names, if it names one.
    pub open spec fn partner(self) -> Option<u64> {
        match self {
            MaritalStatus::Single => None,
            MaritalStatus::Married(id) => Some(id),
            MaritalStatus::Divorced(id) => Some(id),
            MaritalStatus::Widowed(id) => Some(id),
        }
    }

    /// The shape of the node that stands for a relationship of this status.
    pub open spec fn shape_text(self) -> Seq<char> {
        match self {
            MaritalStatus::Married(_) => "diamond"@,
            MaritalStatus::Divorced(_) => "ellipse"@,
            MaritalStatus::Widowed(_) => "triangle"@,
            MaritalStatus::Single => "record"@,
        }
    }

    /// The colour of the node that stands for a relationship of this status.
    pub open spec fn color_text(self) -> Seq<char> {
        match self {
            MaritalStatus::Married(_) => "green"@,
            MaritalStatus::Divorced(_) => "magenta"@,
            MaritalStatus::Widowed(_) => "purple"@,
            MaritalStatus::Single => "orange"@,
        }
    }

    /// The id of the (former) spouse, if the status names one.
    pub fn get_partner(&self) -> (partner: Option<u64>)
        ensures
            partner == self.partner(),
    {
        match self {
            MaritalStatus::Single => None,
            MaritalStatus::Married(id) => Some(*id),
            MaritalStatus::Divorced(id) => Some(*id),
            MaritalStatus::Widowed(id) => Some(*id),
        }
    }

    /// Diamond for married, ellipse for divorced, triangle for widowed,
    /// record for single.
    pub fn get_shape(&self) -> (shape: String)
        ensures
            shape@ == self.shape_text(),
    {
        match self {
            MaritalStatus::Married(_) => String::from_str("diamond"),
            MaritalStatus::Divorced(_) => String::from_str("ellipse"),
            MaritalStatus::Widowed(_) => String::from_str("triangle"),
            MaritalStatus::Single => String::from_str("record"),
        }
    }

    /// Green for married, magenta for divorced, purple for widowed, orange
    /// for single.
    pub fn get_color(&self) -> (color: String)
        ensures
            color@ == self.color_text(),
    {
        match self {
            MaritalStatus::Married(_) => String::from_str("green"),
            MaritalStatus::Divorced(_) => String::from_str("magenta"),
            MaritalStatus::Widowed(_) => String::from_str("purple"),
            MaritalStatus::Single => String::from_str("orange"),
        }
    }
}

/// A person record. The parents are recorded by id and resolved through the
/// registry that holds the records.
#[derive(Debug, PartialEq, Eq)]
pub struct Person {
    info: PersonInfo,
    address: Address,
    marital_status: MaritalStatus,
    mother: Option<u64>,
    father: Option<u64>,
}

/// The content of a [`Person`].
pub struct PersonView {
    pub info: PersonInfoView,
    pub address: AddressView,
    pub marital_status: MaritalStatus,
    pub mother: Option<u64>,
    pub father: Option<u64>,
}

impl PersonView {
    /// Whether a mother or a father is recorded.
    pub open spec fn has_parent(self) -> bool {
        self.mother is Some || self.father is Some
    }
}

impl View for Person {
    type V = PersonView;

    closed spec fn view(&self) -> PersonView {
        PersonView {
            info: self.info@,
            address: self.address@,
            marital_status: self.marital_status,
            mother: self.mother,
            father: self.father,
        }
    }
}

impl Clone for Person {
    /// An equal record.
    fn clone(&self) -> (copy: Person)
        ensures
            copy == *self,
    {
        Person {
            info: self.info.clone(),
            address: self.address.clone(),
            marital_status: self.marital_status,
            mother: self.mother,
            father: self.father,
        }
    }
}

/// The single person with these names, birth date and gender, who has no
/// recorded parents and lives at the empty address.
pub open spec fn default_person(
    lastname: Seq<char>,
    firstname: Seq<char>,
    birthday: Seq<char>,
    gender: Gender,
) -> PersonView {
    PersonView {
        info: PersonInfoView {
            id: person_id(firstname, lastname, birthday),
            firstname,
            lastname,
            birthday,
            gender,
        },
        address: empty_address(),
        marital_status: MaritalStatus::Single,
        mother: None,
        father: None,
    }
}

/// The id of the placeholder that stands above several root persons.
pub open spec fn ancestor_id() -> u64 {
    person_id(""@, "Ancestor"@, ""@)
}

impl Person {
    /// The placeholder that stands above several root persons: it is named
    /// `Ancestor`, is single, and has no parents and an empty address.
    pub fn ancestor() -> (person: Person)
        ensures
            person@ == default_person("Ancestor"@, ""@, ""@, Gender::Male),
            person@.info.id == ancestor_id(),
    {
        Person::new(
            "Ancestor",
            "",
            "",
            Gender::Male,
            Some(Address::new()),
            Some(MaritalStatus::Single),
            None,
            None,
        )
    }

    /// A single person without recorded parents, at the empty address.
    pub fn default(lastname: &str, firstname: &str, birthday: &str, gender: Gender) -> (person:
        Person)
        ensures
            person@ == default_person(lastname@, firstname@, birthday@, gender),
    {
        Person {
            info: PersonInfo::new(firstname, lastname, birthday, gender),
            address: Address::new(),
            marital_status: MaritalStatus::Single,
            mother: None,
            father: None,
        }
    }

    /// A person with the given identity and links. A missing address is the
    /// empty address, a missing status is `Single`. The parent ids are taken
    /// as they come: nothing is checked against any registry.
    pub fn new(
        lastname: &str,
        firstname: &str,
        birthday: &str,
        gender: Gender,
        address: Option<Address>,
        marital_status: Option<MaritalStatus>,
        mother: Option<u64>,
        father: Option<u64>,
    ) -> (person: Person)
        ensures
            person@ == (PersonView {
                info: PersonInfoView {
                    id: person_id(firstname@, lastname@, birthday@),
                    firstname: firstname@,
                    lastname: lastname@,
                    birthday: birthday@,
                    gender,
                },
                address: match address {
                    Some(a) => a@,
                    None => empty_address(),
                },
                marital_status: match marital_status {
                    Some(s) => s,
                    None => MaritalStatus::Single,
                },
                mother,
                father,
            }),
    {
        let address = match address {
            Some(a) => a,
            None => Address::new(),
        };
        let marital_status = match marital_status {
            Some(s) => s,
            None => MaritalStatus::Single,
        };
        Person {
            info: PersonInfo::new(firstname, lastname, birthday, gender),
            address,
            marital_status,
            mother,
            father,
        }
    }

    /// The id of the person, which is the one derived from the names and the
    /// birth date.
    pub fn get_id(&self) -> (id: u64)
        ensures
            id == self@.info.id,
            id == person_id(self@.info.firstname, self@.info.lastname, self@.info.birthday),
    {
        self.info.get_id()
    }

    /// The gender tag.
    pub fn get_gender(&self) -> (gender: Gender)
        ensures
            gender == self@.info.gender,
    {
        self.info.gender
    }

    /// The first name.
    pub fn get_firstname(&self) -> (name: &str)
        ensures
            name@ == self@.info.firstname,
    {
        self.info.firstname.as_str()
    }

    /// The last name.
    pub fn get_lastname(&self) -> (name: &str)
        ensures
            name@ == self@.info.lastname,
    {
        self.info.lastname.as_str()
    }

    /// The birth date, as it was given.
    pub fn get_birthday(&self) -> (date: &str)
        ensures
            date@ == self@.info.birthday,
    {
        self.info.birthday.as_str()
    }

    /// A copy of the address.
    pub fn get_address(&self) -> (address: Address)
        ensures
            address@ == self@.address,
    {
        self.address.clone()
    }

    /// The marital status.
    pub fn get_marital_status(&self) -> (status: MaritalStatus)
        ensures
            status == self@.marital_status,
    {
        self.marital_status
    }

    /// The id of the recorded mother.
    pub fn mother_id(&self) -> (id: Option<u64>)
        ensures
            id == self@.mother,
    {
        self.mother
    }

    /// The id of the recorded father.
    pub fn father_id(&self) -> (id: Option<u64>)
        ensures
            id == self@.father,
    {
        self.father
    }

    /// Whether a mother is recorded.
    pub fn has_mother(&self) -> (b: bool)
        ensures
            b == (self@.mother is Some),
    {
        self.mother.is_some()
    }

    /// Whether a father is recorded.
    pub fn has_father(&self) -> (b: bool)
        ensures
            b == (self@.father is Some),
    {
        self.father.is_some()
    }

    /// Whether a parent is recorded. A person for whom this is false, who has
    /// neither mother nor father, is a root person.
    pub fn has_parent(&self) -> (b: bool)
        ensures
            b == self@.has_parent(),
    {
        self.mother.is_some() || self.father.is_some()
    }

    /// Replaces the address; nothing else changes.
    pub fn set_address(&mut self, addr: Address)
        ensures
            final(self)@ == (PersonView { address: addr@, ..old(self)@ }),
    {
        self.address = addr;
    }

    /// Replaces the marital status; nothing else changes, and no other
    /// person is consulted.
    pub fn set_marital_status(&mut self, status: MaritalStatus)
        ensures
            final(self)@ == (PersonView { marital_status: status, ..old(self)@ }),
    {
        self.marital_status = status;
    }

    /// Records `mother` as the id of the mother; nothing else changes and
    /// nothing is checked.
    pub fn set_mother(&mut self, mother: u64)
        ensures
            final(self)@ == (PersonView { mother: Some(mother), ..old(self)@ }),
    {
        self.mother = Some(mother);
    }

    /// Records `father` as the id of the father; nothing else changes and
    /// nothing is checked.
    pub fn set_father(&mut self, father: u64)
        ensures
            final(self)@ == (PersonView { father: Some(father), ..old(self)@ }),
    {
        self.father = Some(father);
    }
}

} // verus!
