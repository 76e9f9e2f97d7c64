//! The ways in which an operation of this library fails.

use vstd::prelude::*;
use vstd::string::*;

use crate::person::Gender;
use crate::text::{append_decimal, decimal_text};

verus! {

/// Why an operation failed.
#[derive(Debug, PartialEq, Eq)]
pub enum FamilyError {
    /// No person with this id is registered.
    NotFound { id: u64 },
    /// A person was named as their own mother or father.
    SelfReference,
    /// The person `id` was named for a parent role that asks for the gender
    /// `expected`, and has the other one.
    InvalidRoleForGender { expected: Gender, id: u64 },
    /// The two persons to be married carry the same gender tag.
    SameGenderMarriage,
    /// The extension, here in upper case, is none that the exporters know, or
    /// not the one that the requested export writes.
    UnsupportedExtension { extension: String },
    /// The output path has no extension.
    MissingExtension,
    /// Text could not be written out.
    IOFailure,
}

/// The name of a gender as messages spell it.
pub open spec fn gender_word(gender: Gender) -> Seq<char> {
    match gender {
        Gender::Female => "female"@,
        Gender::Male => "male"@,
    }
}

impl FamilyError {
    /// The text of [`FamilyError::message`].
    pub open spec fn message_text(self) -> Seq<char> {
        match self {
            FamilyError::NotFound { id } => "Person with ID "@ + decimal_text(id as nat)
                + " not found"@,
            FamilyError::SelfReference => "You can't be your own parent"@,
            FamilyError::InvalidRoleForGender { expected, id } => "Person with ID "@ + decimal_text(
                id as nat,
            ) + " is not a "@ + gender_word(expected),
            FamilyError::SameGenderMarriage => "The two persons must have different gender"@,
            FamilyError::UnsupportedExtension { extension } => "Extension '"@ + extension@
                + "' is not yet supported"@,
            FamilyError::MissingExtension => "The file must have an extension"@,
            FamilyError::IOFailure => "The text could not be written"@,
        }
    }

    /// A sentence that describes the failure.
    pub fn message(&self) -> (text: String)
        ensures
            text@ == self.message_text(),
    {
        match self {
            FamilyError::NotFound { id } => {
                let mut text = String::from_str("Person with ID ");
                append_decimal(&mut text, *id);
                text.append(" not found");
                text
            },
            FamilyError::SelfReference => String::from_str("You can't be your own parent"),
            FamilyError::InvalidRoleForGender { expected, id } => {
                let mut text = String::from_str("Person with ID ");
                append_decimal(&mut text, *id);
                text.append(" is not a ");
                match expected {
                    Gender::Female => text.append("female"),
                    Gender::Male => text.append("male"),
                }
                text
            },
            FamilyError::SameGenderMarriage => String::from_str(
                "The two persons must have different gender",
            ),
            FamilyError::UnsupportedExtension { extension } => {
                let mut text = String::from_str("Extension '");
                text.append(extension.as_str());
                text.append("' is not yet supported");
                text
            },
            FamilyError::MissingExtension => String::from_str("The file must have an extension"),
            FamilyError::IOFailure => String::from_str("The text could not be written"),
        }
    }
}

} // verus!
