use family_tree::error::FamilyError;
use family_tree::extension::Extension;
use family_tree::json::{frame_address, frame_entry, frame_info, frame_record, quote};
use family_tree::person::{Address, Gender, MaritalStatus, Person};
use family_tree::registry::PersonManager;

fn empty_address_json() -> &'static str {
    "{\"street\":\"\",\"city\":\"\",\"state\":\"\",\"country\":\"\",\"postal_code\":\"\"}"
}

fn info_of(p: &Person, gender: &str) -> String {
    format!(
        "{{\"id\":{},\"firstname\":\"{}\",\"lastname\":\"{}\",\"birthday\":\"{}\",\"gender\":\"{}\"}}",
        p.get_id(),
        p.get_firstname(),
        p.get_lastname(),
        p.get_birthday(),
        gender
    )
}

fn record_of(p: &Person, gender: &str, status: &str, mother: &str, father: &str) -> String {
    format!(
        "{{\"info\":{},\"address\":{},\"marital_status\":{},\"mother\":{},\"father\":{}}}",
        info_of(p, gender),
        empty_address_json(),
        status,
        mother,
        father
    )
}

#[test]
fn quote_puts_text_between_quotes() {
    assert_eq!(quote("abc"), Ok("\"abc\"".to_string()));
    assert_eq!(quote(""), Ok("\"\"".to_string()));
}

#[test]
fn quote_escapes_what_json_must_escape() {
    assert_eq!(quote("a\"b"), Ok("\"a\\\"b\"".to_string()));
    assert_eq!(quote("a\\b"), Ok("\"a\\\\b\"".to_string()));
    assert_eq!(quote("a\nb\tc"), Ok("\"a\\nb\\tc\"".to_string()));
    assert_eq!(quote("\u{1}"), Ok("\"\\u0001\"".to_string()));
    assert_eq!(quote("straße"), Ok("\"straße\"".to_string()));
}

#[test]
fn quote_agrees_with_the_serializer() {
    for text in ["plain", "with \"quotes\"", "tab\there", "ünï©ødé", "back\\slash/"] {
        assert_eq!(quote(text).unwrap(), serde_json::to_string(text).unwrap());
    }
}

#[test]
fn quoted_text_reads_back() {
    for text in ["plain", "with \"quotes\"", "line\nbreak", ""] {
        let literal = quote(text).unwrap();
        let back: String = serde_json::from_str(&literal).unwrap();
        assert_eq!(back, text);
    }
}

#[test]
fn frames_are_spelled_out() {
    assert_eq!(
        frame_info(7, "\"A\"", "\"B\"", "\"C\"", Gender::Female),
        "{\"id\":7,\"firstname\":\"A\",\"lastname\":\"B\",\"birthday\":\"C\",\"gender\":\"Female\"}"
    );
    assert_eq!(
        frame_info(0, "1", "2", "3", Gender::Male),
        "{\"id\":0,\"firstname\":1,\"lastname\":2,\"birthday\":3,\"gender\":\"Male\"}"
    );
    assert_eq!(
        frame_address("1", "2", "3", "4", "5"),
        "{\"street\":1,\"city\":2,\"state\":3,\"country\":4,\"postal_code\":5}"
    );
    assert_eq!(
        frame_record("1", "2", "3", "4", "5"),
        "{\"info\":1,\"address\":2,\"marital_status\":3,\"mother\":4,\"father\":5}"
    );
    assert_eq!(frame_entry(12, "{}"), "\n\"Person_12\": {}\n");
}

#[test]
fn status_as_json() {
    assert_eq!(MaritalStatus::Single.to_json(), "\"Single\"");
    assert_eq!(MaritalStatus::Married(5).to_json(), "{\"Married\":5}");
    assert_eq!(MaritalStatus::Divorced(6).to_json(), "{\"Divorced\":6}");
    assert_eq!(
        MaritalStatus::Widowed(u64::MAX).to_json(),
        "{\"Widowed\":18446744073709551615}"
    );
}

#[test]
fn address_as_json() {
    assert_eq!(Address::new().to_json(), Ok(empty_address_json().to_string()));
    let a = Address {
        street: "1 \"Main\" St".to_string(),
        city: "Springfield".to_string(),
        state: "IL".to_string(),
        country: "USA".to_string(),
        postal_code: "62701".to_string(),
    };
    assert_eq!(
        a.to_json(),
        Ok("{\"street\":\"1 \\\"Main\\\" St\",\"city\":\"Springfield\",\"state\":\"IL\",\"country\":\"USA\",\"postal_code\":\"62701\"}".to_string())
    );
}

#[test]
fn person_info_as_json() {
    let p = Person::default("Doe", "John", "1990-01-01", Gender::Male);
    assert_eq!(p.info_json(), Ok(info_of(&p, "Male")));
}

#[test]
fn person_record_and_entry() {
    let p = Person::default("Doe", "Jane", "1990-01-01", Gender::Female);
    let record = record_of(&p, "Female", "\"Single\"", "null", "null");
    assert_eq!(p.record_json("null", "null"), Ok(record.clone()));
    assert_eq!(
        p.to_json("null", "null"),
        Ok(format!("\n\"Person_{}\": {}\n", p.get_id(), record))
    );
    assert_eq!(
        p.record_json("1", "2"),
        Ok(record_of(&p, "Female", "\"Single\"", "1", "2"))
    );
}

#[test]
fn record_is_valid_json() {
    let mut p = Person::new(
        "D\"oe",
        "Ja\\ne",
        "1990\n01",
        Gender::Female,
        None,
        Some(MaritalStatus::Divorced(3)),
        Some(1),
        None,
    );
    let mut address = Address::new();
    address.street = "tab\there".to_string();
    p.set_address(address);
    let record = p.record_json("null", "null").unwrap();
    let value: serde_json::Value = serde_json::from_str(&record).unwrap();
    assert_eq!(value["info"]["id"].as_u64(), Some(p.get_id()));
    assert_eq!(value["info"]["firstname"].as_str(), Some("Ja\\ne"));
    assert_eq!(value["info"]["lastname"].as_str(), Some("D\"oe"));
    assert_eq!(value["info"]["birthday"].as_str(), Some("1990\n01"));
    assert_eq!(value["info"]["gender"].as_str(), Some("Female"));
    assert_eq!(value["address"]["street"].as_str(), Some("tab\there"));
    assert_eq!(value["marital_status"]["Divorced"].as_u64(), Some(3));
    assert!(value["mother"].is_null());
    assert!(value["father"].is_null());
}

#[test]
fn entry_of_unknown_person_fails() {
    let m = PersonManager::new();
    assert_eq!(m.person_to_json(4), Err(FamilyError::NotFound { id: 4 }));
}

#[test]
fn entry_nests_registered_parents() {
    let mut m = PersonManager::new();
    let g = Person::default("Doe", "Gma", "1940", Gender::Female);
    m.add_person(&g);
    let a = Person::new("Doe", "Ann", "1965", Gender::Female, None, None, Some(g.get_id()), None);
    let b = Person::default("Doe", "Bob", "1964", Gender::Male);
    m.add_person(&a);
    m.add_person(&b);
    let c = Person::new(
        "Doe",
        "Cid",
        "1990",
        Gender::Male,
        None,
        None,
        Some(a.get_id()),
        Some(b.get_id()),
    );
    m.add_person(&c);
    let g_record = record_of(&g, "Female", "\"Single\"", "null", "null");
    let a_record = record_of(&a, "Female", "\"Single\"", &g_record, "null");
    let b_record = record_of(&b, "Male", "\"Single\"", "null", "null");
    let c_record = record_of(&c, "Male", "\"Single\"", &a_record, &b_record);
    assert_eq!(
        m.person_to_json(c.get_id()),
        Ok(format!("\n\"Person_{}\": {}\n", c.get_id(), c_record))
    );
    assert_eq!(
        m.person_to_json(g.get_id()),
        Ok(format!("\n\"Person_{}\": {}\n", g.get_id(), g_record))
    );
}

#[test]
fn entry_shows_the_current_record_of_a_parent() {
    let mut m = PersonManager::new();
    let a = Person::default("Doe", "Ann", "1965", Gender::Female);
    let b = Person::default("Doe", "Bob", "1964", Gender::Male);
    m.add_person(&a);
    m.add_person(&b);
    let c = Person::new("Doe", "Cid", "1990", Gender::Male, None, None, Some(a.get_id()), None);
    m.add_person(&c);
    assert_eq!(m.marry(a.get_id(), b.get_id()), Ok(()));
    let a_record = record_of(
        &a,
        "Female",
        &format!("{{\"Married\":{}}}", b.get_id()),
        "null",
        "null",
    );
    let c_record = record_of(&c, "Male", "\"Single\"", &a_record, "null");
    assert_eq!(
        m.person_to_json(c.get_id()),
        Ok(format!("\n\"Person_{}\": {}\n", c.get_id(), c_record))
    );
}

#[test]
fn entry_writes_null_for_unregistered_parents() {
    let mut m = PersonManager::new();
    let c = Person::new("Doe", "Cid", "1990", Gender::Male, None, None, Some(1), Some(2));
    m.add_person(&c);
    assert_eq!(
        m.person_to_json(c.get_id()),
        Ok(format!(
            "\n\"Person_{}\": {}\n",
            c.get_id(),
            record_of(&c, "Male", "\"Single\"", "null", "null")
        ))
    );
}

#[test]
fn entry_ends_on_a_circle_of_parents() {
    let mut m = PersonManager::new();
    let a = Person::default("Doe", "Ann", "1965", Gender::Female);
    let b = Person::default("Doe", "Bea", "1966", Gender::Female);
    m.add_person(&a);
    m.add_person(&b);
    assert_eq!(m.set_mother(a.get_id(), b.get_id()), Ok(()));
    assert_eq!(m.set_mother(b.get_id(), a.get_id()), Ok(()));
    let b_inner = record_of(&b, "Female", "\"Single\"", "null", "null");
    let a_record = record_of(&a, "Female", "\"Single\"", &b_inner, "null");
    assert_eq!(
        m.person_to_json(a.get_id()),
        Ok(format!("\n\"Person_{}\": {}\n", a.get_id(), a_record))
    );
}

#[test]
fn document_of_empty_registry_is_an_empty_object() {
    let m = PersonManager::new();
    assert_eq!(m.json_text(), Ok("{\n\n}".to_string()));
    assert_eq!(m.document_of(&Vec::new()), Ok("{\n\n}".to_string()));
    let value: serde_json::Value = serde_json::from_str(&m.json_text().unwrap()).unwrap();
    assert_eq!(value.as_object().map(|o| o.len()), Some(0));
}

#[test]
fn document_joins_entries_with_commas() {
    let mut m = PersonManager::new();
    let a = Person::default("Doe", "Ann", "1965", Gender::Female);
    let b = Person::default("Doe", "Bob", "1964", Gender::Male);
    m.add_person(&a);
    m.add_person(&b);
    let ea = m.person_to_json(a.get_id()).unwrap();
    let eb = m.person_to_json(b.get_id()).unwrap();
    assert_eq!(
        m.document_of(&vec![a.get_id(), b.get_id()]),
        Ok(format!("{{\n{},{}\n}}", ea, eb))
    );
    assert_eq!(
        m.document_of(&vec![b.get_id()]),
        Ok(format!("{{\n{}\n}}", eb))
    );
}

#[test]
fn document_is_one_json_object_with_an_entry_per_person() {
    let mut m = PersonManager::new();
    let a = Person::default("Doe", "Ann", "1965", Gender::Female);
    let b = Person::default("Doe", "Bob", "1964", Gender::Male);
    m.add_person(&a);
    m.add_person(&b);
    let c = Person::new(
        "Doe",
        "Cid",
        "1990",
        Gender::Male,
        None,
        None,
        Some(a.get_id()),
        Some(b.get_id()),
    );
    m.add_person(&c);
    let text = m.json_text().unwrap();
    let value: serde_json::Value = serde_json::from_str(&text).unwrap();
    let object = value.as_object().unwrap();
    assert_eq!(object.len(), 3);
    for p in [&a, &b, &c] {
        let entry = &object[&format!("Person_{}", p.get_id())];
        assert_eq!(entry["info"]["id"].as_u64(), Some(p.get_id()));
    }
    let entry = &object[&format!("Person_{}", c.get_id())];
    assert_eq!(entry["mother"]["info"]["firstname"].as_str(), Some("Ann"));
    assert_eq!(entry["father"]["info"]["firstname"].as_str(), Some("Bob"));
    assert!(entry["mother"]["mother"].is_null());
}

#[test]
fn document_kind_must_be_json() {
    assert_eq!(PersonManager::check_document_kind(Extension::JSON), Ok(()));
    assert_eq!(
        PersonManager::check_document_kind(Extension::PNG),
        Err(FamilyError::UnsupportedExtension {
            extension: "PNG".to_string()
        })
    );
    assert_eq!(
        PersonManager::check_document_kind(Extension::DOT),
        Err(FamilyError::UnsupportedExtension {
            extension: "DOT".to_string()
        })
    );
}

#[test]
fn to_json_checks_the_file_name() {
    let mut m = PersonManager::new();
    let a = Person::default("Doe", "Ann", "1965", Gender::Female);
    m.add_person(&a);
    assert_eq!(m.to_json(None), m.json_text());
    assert_eq!(m.to_json(Some("output/tree.json")), m.json_text());
    assert_eq!(m.to_json(Some("x.JSON")), m.json_text());
    assert_eq!(m.to_json(Some("tree")), Err(FamilyError::MissingExtension));
    assert_eq!(
        m.to_json(Some("tree.svg")),
        Err(FamilyError::UnsupportedExtension {
            extension: "SVG".to_string()
        })
    );
    assert_eq!(
        m.to_json(Some("tree.yaml")),
        Err(FamilyError::UnsupportedExtension {
            extension: "YAML".to_string()
        })
    );
}

#[test]
fn document_names_the_first_unknown_id() {
    let mut m = PersonManager::new();
    let a = Person::default("Doe", "Ann", "1965", Gender::Female);
    m.add_person(&a);
    let unknown = a.get_id().wrapping_add(1);
    let other = a.get_id().wrapping_add(2);
    assert_eq!(
        m.document_of(&vec![a.get_id(), unknown, other]),
        Err(FamilyError::NotFound { id: unknown })
    );
    assert_eq!(
        m.document_of(&vec![other, a.get_id(), unknown]),
        Err(FamilyError::NotFound { id: other })
    );
}

#[test]
fn json_functions_always_succeed() {
    let mut m = PersonManager::new();
    assert!(m.json_text().is_ok());
    assert!(m.to_json(None).is_ok());
    let p = Person::new(
        "\u{0}\u{1f}\"\\",
        "\u{7f}\u{80}\u{10ffff}",
        "\n\r\t",
        Gender::Female,
        None,
        None,
        None,
        None,
    );
    m.add_person(&p);
    assert!(quote(p.get_lastname()).is_ok());
    assert!(p.info_json().is_ok());
    assert!(p.get_address().to_json().is_ok());
    assert!(p.record_json("null", "null").is_ok());
    assert!(p.to_json("null", "null").is_ok());
    assert!(m.person_to_json(p.get_id()).is_ok());
    assert!(m.document_of(&vec![p.get_id()]).is_ok());
    let text = m.to_json(Some("tree.json")).unwrap();
    let value: serde_json::Value = serde_json::from_str(&text).unwrap();
    let entry = &value[&format!("Person_{}", p.get_id())];
    assert_eq!(
        entry["info"]["lastname"].as_str(),
        Some("\u{0}\u{1f}\"\\")
    );
}

#[test]
fn to_json_succeeds_only_for_the_json_extension() {
    let m = PersonManager::new();
    for name in ["a.json", "a.JSON", "dir.d/a.Json", "a.b.json"] {
        assert_eq!(m.to_json(Some(name)), Ok("{\n\n}".to_string()));
    }
    for (name, upper) in [
        ("a.dot", "DOT"),
        ("a.png", "PNG"),
        ("a.jpg", "JPG"),
        ("a.pdf", "PDF"),
        ("a.svg", "SVG"),
        ("a.json.txt", "TXT"),
        ("a.", ""),
    ] {
        assert_eq!(
            m.to_json(Some(name)),
            Err(FamilyError::UnsupportedExtension {
                extension: upper.to_string()
            })
        );
    }
    for name in ["", "json", ".json", "a.json/b"] {
        assert_eq!(m.to_json(Some(name)), Err(FamilyError::MissingExtension));
    }
}

#[test]
fn to_json_as_decides_by_the_kind_found() {
    let mut m = PersonManager::new();
    let a = Person::default("Doe", "Ann", "1965", Gender::Female);
    m.add_person(&a);
    assert_eq!(m.to_json_as(None), m.json_text());
    assert_eq!(m.to_json_as(Some(Extension::JSON)), m.json_text());
    for (kind, name) in [
        (Extension::DOT, "DOT"),
        (Extension::PNG, "PNG"),
        (Extension::JPG, "JPG"),
        (Extension::PDF, "PDF"),
        (Extension::SVG, "SVG"),
    ] {
        assert_eq!(
            m.to_json_as(Some(kind)),
            Err(FamilyError::UnsupportedExtension {
                extension: name.to_string()
            })
        );
    }
}
