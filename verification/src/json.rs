//! The document export: every person as a named entry of one JSON object,
//! with the resolved parents nested in the person's record.

use std::collections::HashSet;
use vstd::prelude::*;
use vstd::std_specs::hash::*;
use vstd::string::*;

use crate::error::FamilyError;
use crate::extension::{
    extension_named, lemma_named_kind_has_the_name, names_kind, uppercase_text, Extension,
};
use crate::person::{Address, AddressView, Gender, MaritalStatus, Person, PersonInfoView, PersonView};
use crate::registry::{PersonManager, RegistryView};
use crate::text::{append_decimal, decimal_text};
use crate::utils::follows_a_dot;

verus! {

/// The error type of the JSON serializer.
#[verifier::external_type_specification]
#[verifier::external_body]
pub struct ExJsonError(serde_json::Error);

/// The JSON string literal for `text`: the text between double quotes,
/// escaped as the serializer escapes it.
pub uninterp spec fn json_string(text: Seq<char>) -> Seq<char>;

/// `serde_json::to_string` on a string slice: it succeeds, since a string
/// slice always serializes and the text is written to memory, and the result
/// is the JSON string literal for the slice, which depends on the characters
/// of the slice alone.
#[verifier::external_body]
fn json_of_str(text: &str) -> (json: Result<String, serde_json::Error>)
    ensures
        json is Ok,
        json matches Ok(literal) ==> literal@ == json_string(text@),
{
    serde_json::to_string(text)
}

/// The gender as JSON: its name as a string.
pub open spec fn gender_json(gender: Gender) -> Seq<char> {
    match gender {
        Gender::Male => "\"Male\""@,
        Gender::Female => "\"Female\""@,
    }
}

/// The marital status as JSON: `Single` as a string, any other status as
/// an object with the status' name as the key and the id as the value.
pub open spec fn status_json(status: MaritalStatus) -> Seq<char> {
    match status {
        MaritalStatus::Single => "\"Single\""@,
        MaritalStatus::Married(id) => "{\"Married\":"@ + decimal_text(id as nat) + "}"@,
        MaritalStatus::Divorced(id) => "{\"Divorced\":"@ + decimal_text(id as nat) + "}"@,
        MaritalStatus::Widowed(id) => "{\"Widowed\":"@ + decimal_text(id as nat) + "}"@,
    }
}

/// The identity of a person as a JSON object, from the id, the three texts
/// as JSON string literals, and the gender.
pub open spec fn info_frame(
    id: u64,
    firstname: Seq<char>,
    lastname: Seq<char>,
    birthday: Seq<char>,
    gender: Gender,
) -> Seq<char> {
    "{\"id\":"@ + decimal_text(id as nat) + ",\"firstname\":"@ + firstname + ",\"lastname\":"@
        + lastname + ",\"birthday\":"@ + birthday + ",\"gender\":"@ + gender_json(gender) + "}"@
}

/// An address as a JSON object, from its five texts as JSON string
/// literals.
pub open spec fn address_frame(
    street: Seq<char>,
    city: Seq<char>,
    state: Seq<char>,
    country: Seq<char>,
    postal_code: Seq<char>,
) -> Seq<char> {
    "{\"street\":"@ + street + ",\"city\":"@ + city + ",\"state\":"@ + state + ",\"country\":"@
        + country + ",\"postal_code\":"@ + postal_code + "}"@
}

/// The record of a person as a JSON object, from the JSON of its five
/// parts.
pub open spec fn record_frame(
    info: Seq<char>,
    address: Seq<char>,
    marital_status: Seq<char>,
    mother: Seq<char>,
    father: Seq<char>,
) -> Seq<char> {
    "{\"info\":"@ + info + ",\"address\":"@ + address + ",\"marital_status\":"@ + marital_status
        + ",\"mother\":"@ + mother + ",\"father\":"@ + father + "}"@
}

/// The entry of the person `id` in the document: the name `Person_` and the
/// id, then the record.
pub open spec fn entry_frame(id: u64, record: Seq<char>) -> Seq<char> {
    "\n\"Person_"@ + decimal_text(id as nat) + "\": "@ + record + "\n"@
}

/// The identity of a person as JSON.
pub open spec fn info_json(info: PersonInfoView) -> Seq<char> {
    info_frame(
        info.id,
        json_string(info.firstname),
        json_string(info.lastname),
        json_string(info.birthday),
        info.gender,
    )
}

/// An address as JSON.
pub open spec fn address_json(address: AddressView) -> Seq<char> {
    address_frame(
        json_string(address.street),
        json_string(address.city),
        json_string(address.state),
        json_string(address.country),
        json_string(address.postal_code),
    )
}

/// The record of a person as JSON, where `mother` and `father` are the JSON
/// of the parents.
pub open spec fn record_json(person: PersonView, mother: Seq<char>, father: Seq<char>) -> Seq<char> {
    record_frame(
        info_json(person.info),
        address_json(person.address),
        status_json(person.marital_status),
        mother,
        father,
    )
}

/// The entries `entries` with commas between them.
pub open spec fn joined_entries(entries: Seq<Seq<char>>) -> Seq<char>
    decreases entries.len(),
{
    if entries.len() == 0 {
        Seq::empty()
    } else if entries.len() == 1 {
        entries[0]
    } else {
        joined_entries(entries.drop_last()) + ","@ + entries.last()
    }
}

impl RegistryView {
    /// The JSON of the person `id` when the persons in `path` are being
    /// written around it: `null` where no record is kept under `id` or where
    /// `id` is in `path`, which ends the nesting where the parent links run
    /// in a circle; else the record with the JSON of the mother and of the
    /// father nested in it, `null` standing for a parent that is not
    /// recorded.
    pub open spec fn record_text(self, id: u64, path: Set<u64>) -> Seq<char>
        decreases self.unvisited(path).len(),
        when self.persons.dom().finite()
    {
        if !self.persons.contains_key(id) || path.contains(id) {
            "null"@
        } else {
            let person = self.persons[id];
            let inner = path.insert(id);
            proof {
                assert(self.unvisited(inner) =~= self.unvisited(path).remove(id));
            }
            record_json(
                person,
                match person.mother {
                    Some(mother) => self.record_text(mother, inner),
                    None => "null"@,
                },
                match person.father {
                    Some(father) => self.record_text(father, inner),
                    None => "null"@,
                },
            )
        }
    }

    /// The entry of the person `id` in the document.
    pub open spec fn entry_text(self, id: u64) -> Seq<char> {
        entry_frame(id, self.record_text(id, Set::empty()))
    }

    /// The document that holds the entries of the persons `order`, in that
    /// order: one JSON object.
    pub open spec fn document_text(self, order: Seq<u64>) -> Seq<char> {
        "{\n"@ + joined_entries(order.map_values(|id: u64| self.entry_text(id))) + "\n}"@
    }
}

/// The JSON string literal for `text`. This always succeeds.
pub fn quote(text: &str) -> (literal: Result<String, FamilyError>)
    ensures
        literal matches Ok(l) && l@ == json_string(text@),
{
    match json_of_str(text) {
        Ok(literal) => Ok(literal),
        Err(_) => Err(FamilyError::IOFailure),
    }
}

/// The identity of a person as a JSON object; the three texts come as JSON
/// string literals.
pub fn frame_info(id: u64, firstname: &str, lastname: &str, birthday: &str, gender: Gender) -> (json:
    String)
    ensures
        json@ == info_frame(id, firstname@, lastname@, birthday@, gender),
{
    let mut json = String::from_str("{\"id\":");
    append_decimal(&mut json, id);
    json.append(",\"firstname\":");
    json.append(firstname);
    json.append(",\"lastname\":");
    json.append(lastname);
    json.append(",\"birthday\":");
    json.append(birthday);
    json.append(",\"gender\":");
    match gender {
        Gender::Male => json.append("\"Male\""),
        Gender::Female => json.append("\"Female\""),
    }
    json.append("}");
    json
}

/// An address as a JSON object; the five texts come as JSON string
/// literals.
pub fn frame_address(street: &str, city: &str, state: &str, country: &str, postal_code: &str) -> (json:
    String)
    ensures
        json@ == address_frame(street@, city@, state@, country@, postal_code@),
{
    let mut json = String::from_str("{\"street\":");
    json.append(street);
    json.append(",\"city\":");
    json.append(city);
    json.append(",\"state\":");
    json.append(state);
    json.append(",\"country\":");
    json.append(country);
    json.append(",\"postal_code\":");
    json.append(postal_code);
    json.append("}");
    json
}

/// The record of a person as a JSON object, from the JSON of its parts.
pub fn frame_record(info: &str, address: &str, marital_status: &str, mother: &str, father: &str) -> (json:
    String)
    ensures
        json@ == record_frame(info@, address@, marital_status@, mother@, father@),
{
    let mut json = String::from_str("{\"info\":");
    json.append(info);
    json.append(",\"address\":");
    json.append(address);
    json.append(",\"marital_status\":");
    json.append(marital_status);
    json.append(",\"mother\":");
    json.append(mother);
    json.append(",\"father\":");
    json.append(father);
    json.append("}");
    json
}

/// The entry of the person `id`, from the person's record as JSON.
pub fn frame_entry(id: u64, record: &str) -> (entry: String)
    ensures
        entry@ == entry_frame(id, record@),
{
    let mut entry = String::from_str("\n\"Person_");
    append_decimal(&mut entry, id);
    entry.append("\": ");
    entry.append(record);
    entry.append("\n");
    entry
}

impl MaritalStatus {
    /// The status as JSON.
    pub fn to_json(&self) -> (json: String)
        ensures
            json@ == status_json(*self),
    {
        match self {
            MaritalStatus::Single => String::from_str("\"Single\""),
            MaritalStatus::Married(id) => {
                let mut json = String::from_str("{\"Married\":");
                append_decimal(&mut json, *id);
                json.append("}");
                json
            },
            MaritalStatus::Divorced(id) => {
                let mut json = String::from_str("{\"Divorced\":");
                append_decimal(&mut json, *id);
                json.append("}");
                json
            },
            MaritalStatus::Widowed(id) => {
                let mut json = String::from_str("{\"Widowed\":");
                append_decimal(&mut json, *id);
                json.append("}");
                json
            },
        }
    }
}

impl Address {
    /// The address as a JSON object. This always succeeds.
    pub fn to_json(&self) -> (json: Result<String, FamilyError>)
        ensures
            json matches Ok(j) && j@ == address_json(self@),
    {
        let street = quote(self.street.as_str())?;
        let city = quote(self.city.as_str())?;
        let state = quote(self.state.as_str())?;
        let country = quote(self.country.as_str())?;
        let postal_code = quote(self.postal_code.as_str())?;
        Ok(
            frame_address(
                street.as_str(),
                city.as_str(),
                state.as_str(),
                country.as_str(),
                postal_code.as_str(),
            ),
        )
    }
}

impl Person {
    /// The identity of the person as a JSON object. This always succeeds.
    pub fn info_json(&self) -> (json: Result<String, FamilyError>)
        ensures
            json matches Ok(j) && j@ == info_json(self@.info),
    {
        let firstname = quote(self.get_firstname())?;
        let lastname = quote(self.get_lastname())?;
        let birthday = quote(self.get_birthday())?;
        Ok(
            frame_info(
                self.get_id(),
                firstname.as_str(),
                lastname.as_str(),
                birthday.as_str(),
                self.get_gender(),
            ),
        )
    }

    /// The record of the person as a JSON object, where `mother_json` and
    /// `father_json` are the JSON of the parents. This always succeeds.
    pub fn record_json(&self, mother_json: &str, father_json: &str) -> (json: Result<String, FamilyError>)
        ensures
            json matches Ok(j) && j@ == record_json(self@, mother_json@, father_json@),
    {
        let info = self.info_json()?;
        let address = self.get_address().to_json()?;
        let status = self.get_marital_status().to_json();
        Ok(
            frame_record(
                info.as_str(),
                address.as_str(),
                status.as_str(),
                mother_json,
                father_json,
            ),
        )
    }

    /// The entry of the person in the document, where `mother_json` and
    /// `father_json` are the JSON of the parents. This always succeeds.
    pub fn to_json(&self, mother_json: &str, father_json: &str) -> (entry: Result<String, FamilyError>)
        ensures
            entry matches Ok(t) && t@ == entry_frame(
                self@.info.id,
                record_json(self@, mother_json@, father_json@),
            ),
    {
        let record = self.record_json(mother_json, father_json)?;
        Ok(frame_entry(self.get_id(), record.as_str()))
    }
}

/// Whether `name` is what a file `path` with a readable extension is refused
/// under as the target of the document: the upper-case form of an extension
/// that the path holds, which names no known kind or a kind other than
/// `JSON`.
pub open spec fn refused_for_document(path: Seq<char>, name: Seq<char>) -> bool {
    &&& extension_named(name) != Some(Extension::JSON)
    &&& exists|ext: Seq<char>| #[trigger] follows_a_dot(path, ext) && name == uppercase_text(ext)
}

/// What an export of the document of `registry` to `file` comes to. Without
/// a file it succeeds. A file whose name holds no dot is refused for want
/// of an extension. An export to a named file succeeds only where the name
/// holds the extension of the document format; one that fails for the
/// extension names it in upper case. An export that succeeds gives the
/// document of all registered persons, each once, in some order.
pub open spec fn document_export_outcome(
    registry: RegistryView,
    file: Option<&str>,
    text: Result<String, FamilyError>,
) -> bool {
    &&& file is None ==> text is Ok
    &&& (file matches Some(name) && !name@.contains('.')) ==> text == Err::<String, FamilyError>(
        FamilyError::MissingExtension,
    )
    &&& match text {
        Ok(t) => {
            &&& exists|order: Seq<u64>|
                {
                    &&& #[trigger] order.no_duplicates()
                    &&& order.to_set() == registry.persons.dom()
                    &&& t@ == registry.document_text(order)
                }
            &&& file matches Some(name) ==> names_kind(name@, Extension::JSON)
        },
        Err(FamilyError::MissingExtension) => file is Some,
        Err(FamilyError::UnsupportedExtension { extension }) => file matches Some(name)
            && refused_for_document(name@, extension@),
        Err(_) => false,
    }
}

/// A path that names a kind holds an extension whose upper-case form is the
/// name of that kind.
pub proof fn lemma_named_kind_names(path: Seq<char>, extension: Extension)
    requires
        names_kind(path, extension),
    ensures
        exists|ext: Seq<char>|
            #[trigger] follows_a_dot(path, ext) && extension.name_text() == uppercase_text(ext),
{
    let ext = choose|ext: Seq<char>|
        #[trigger] follows_a_dot(path, ext) && extension_named(uppercase_text(ext)) == Some(
            extension,
        );
    lemma_named_kind_has_the_name(uppercase_text(ext));
}

impl PersonManager {
    /// The JSON of the person `id` while the persons in `path` are being
    /// written around it.
    fn record_string(&self, id: u64, path: &mut HashSet<u64>) -> (json: Result<String, FamilyError>)
        requires
            self.wf(),
        ensures
            json matches Ok(j) && j@ == self@.record_text(id, old(path)@),
            final(path)@ == old(path)@,
        decreases self@.unvisited(old(path)@).len(),
    {
        if path.contains(&id) {
            return Ok(String::from_str("null"));
        }
        let person = match self.get_person(id) {
            Some(person) => person,
            None => {
                return Ok(String::from_str("null"));
            },
        };
        path.insert(id);
        proof {
            assert(self@.unvisited(path@) =~= self@.unvisited(old(path)@).remove(id));
        }
        let mother = match person.mother_id() {
            Some(mother) => self.record_string(mother, path)?,
            None => String::from_str("null"),
        };
        let father = match person.father_id() {
            Some(father) => self.record_string(father, path)?,
            None => String::from_str("null"),
        };
        path.remove(&id);
        assert(path@ =~= old(path)@);
        person.record_json(mother.as_str(), father.as_str())
    }

    /// The entry of the person `person_id` in the document: the person's
    /// record with the records of the registered parents nested in it, and
    /// theirs in turn. A parent that is not recorded, not registered, or
    /// already being written further out is `null`. Fails where `person_id`
    /// is not registered.
    pub fn person_to_json(&self, person_id: u64) -> (entry: Result<String, FamilyError>)
        requires
            self.wf(),
        ensures
            self@.persons.contains_key(person_id) ==> (entry matches Ok(t) && t@
                == self@.entry_text(person_id)),
            !self@.persons.contains_key(person_id) ==> entry == Err::<String, FamilyError>(
                FamilyError::NotFound { id: person_id },
            ),
    {
        if self.get_person(person_id).is_none() {
            return Err(FamilyError::NotFound { id: person_id });
        }
        let mut path: HashSet<u64> = HashSet::new();
        let record = self.record_string(person_id, &mut path)?;
        Ok(frame_entry(person_id, record.as_str()))
    }

    /// The document with the entries of the persons `order`, in that order,
    /// separated by commas. Fails where no record is kept under one of the
    /// ids, and names the first such id.
    pub fn document_of(&self, order: &Vec<u64>) -> (text: Result<String, FamilyError>)
        requires
            self.wf(),
        ensures
            match text {
                Ok(t) => {
                    &&& forall|i: int|
                        0 <= i < order@.len() ==> self@.persons.contains_key(order@[i])
                    &&& t@ == self@.document_text(order@)
                },
                Err(FamilyError::NotFound { id }) => exists|i: int|
                    {
                        &&& 0 <= i < order@.len()
                        &&& #[trigger] order@[i] == id
                        &&& !self@.persons.contains_key(id)
                        &&& forall|j: int| 0 <= j < i ==> self@.persons.contains_key(order@[j])
                    },
                Err(_) => false,
            },
    {
        let mut text = String::from_str("{\n");
        let ghost entries = order@.map_values(|id: u64| self@.entry_text(id));
        let mut i: usize = 0;
        assert(entries.take(0) =~= Seq::<Seq<char>>::empty());
        assert(text@ =~= "{\n"@ + joined_entries(entries.take(0)));
        while i < order.len()
            invariant
                self.wf(),
                0 <= i <= order@.len(),
                forall|j: int| 0 <= j < i ==> self@.persons.contains_key(order@[j]),
                entries == order@.map_values(|id: u64| self@.entry_text(id)),
                text@ == "{\n"@ + joined_entries(entries.take(i as int)),
            decreases order@.len() - i,
        {
            let entry = match self.person_to_json(order[i]) {
                Ok(entry) => entry,
                Err(e) => {
                    return Err(e);
                },
            };
            proof {
                let next = entries.take(i + 1);
                assert(next.drop_last() =~= entries.take(i as int));
                assert(next.last() == entry@);
                if i == 0 {
                    assert(next[0] == entry@);
                }
            }
            if i > 0 {
                text.append(",");
            }
            text.append(entry.as_str());
            assert(text@ =~= "{\n"@ + joined_entries(entries.take(i + 1)));
            i += 1;
        }
        assert(entries.take(i as int) =~= entries);
        text.append("\n}");
        Ok(text)
    }

    /// The document of all registered persons, in the order in which the
    /// registry walks them. This always succeeds.
    pub fn json_text(&self) -> (text: Result<String, FamilyError>)
        requires
            self.wf(),
        ensures
            text matches Ok(t) && exists|order: Seq<u64>|
                {
                    &&& #[trigger] order.no_duplicates()
                    &&& order.to_set() == self@.persons.dom()
                    &&& t@ == self@.document_text(order)
                },
    {
        let order = self.ids();
        assert forall|i: int| 0 <= i < order@.len() implies self@.persons.contains_key(
            order@[i],
        ) by {
            assert(order@.to_set().contains(order@[i]));
        }
        self.document_of(&order)
    }

    /// Whether a file of the kind `extension` can take the document: only
    /// `JSON` can; any other kind is refused under its name.
    pub fn check_document_kind(extension: Extension) -> (checked: Result<(), FamilyError>)
        ensures
            match checked {
                Ok(()) => extension == Extension::JSON,
                Err(FamilyError::UnsupportedExtension { extension: name }) => extension
                    != Extension::JSON && name@ == extension.name_text(),
                Err(_) => false,
            },
    {
        if extension == Extension::JSON {
            Ok(())
        } else {
            Err(FamilyError::UnsupportedExtension { extension: String::from_str(extension.name()) })
        }
    }

    /// The document for a file whose kind was found to be `extension`, or
    /// for the document's own file where there is none: the document of all
    /// registered persons, unless the kind is another than `JSON`, which is
    /// refused under its name.
    pub fn to_json_as(&self, extension: Option<Extension>) -> (text: Result<String, FamilyError>)
        requires
            self.wf(),
        ensures
            match extension {
                Some(kind) if kind != Extension::JSON => text matches Err(
                    FamilyError::UnsupportedExtension { extension: name },
                ) && name@ == kind.name_text(),
                _ => text matches Ok(t) && exists|order: Seq<u64>|
                    {
                        &&& #[trigger] order.no_duplicates()
                        &&& order.to_set() == self@.persons.dom()
                        &&& t@ == self@.document_text(order)
                    },
            },
    {
        match extension {
            Some(kind) => Self::check_document_kind(kind)?,
            None => {},
        }
        self.json_text()
    }

    /// Prepares the export of the document to `output_file`, or to
    /// `output/tree.json` where none is given, and returns the text to
    /// write. Without `output_file` this succeeds. A file that is named must
    /// carry the extension of the document format: a name without extension
    /// is refused as such, and a name with an unknown extension, or with that
    /// of another kind of output, is refused under the extension in upper
    /// case.
    pub fn to_json(&self, output_file: Option<&str>) -> (text: Result<String, FamilyError>)
        requires
            self.wf(),
        ensures
            document_export_outcome(self@, output_file, text),
    {
        match output_file {
            None => self.to_json_as(None),
            Some(file) => {
                let extension = Extension::from_path(file)?;
                proof {
                    lemma_named_kind_names(file@, extension);
                }
                self.to_json_as(Some(extension))
            },
        }
    }
}

} // verus!
