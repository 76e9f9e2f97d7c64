use family_tree::error::FamilyError;
use family_tree::person::Gender;

#[test]
fn messages_name_what_failed() {
    assert_eq!(
        FamilyError::NotFound { id: 42 }.message(),
        "Person with ID 42 not found"
    );
    assert_eq!(
        FamilyError::SelfReference.message(),
        "You can't be your own parent"
    );
    assert_eq!(
        FamilyError::InvalidRoleForGender {
            expected: Gender::Female,
            id: 7
        }
        .message(),
        "Person with ID 7 is not a female"
    );
    assert_eq!(
        FamilyError::InvalidRoleForGender {
            expected: Gender::Male,
            id: 0
        }
        .message(),
        "Person with ID 0 is not a male"
    );
    assert_eq!(
        FamilyError::SameGenderMarriage.message(),
        "The two persons must have different gender"
    );
    assert_eq!(
        FamilyError::UnsupportedExtension {
            extension: "TXT".to_string()
        }
        .message(),
        "Extension 'TXT' is not yet supported"
    );
    assert_eq!(
        FamilyError::MissingExtension.message(),
        "The file must have an extension"
    );
    assert_eq!(
        FamilyError::IOFailure.message(),
        "The text could not be written"
    );
}
