use family_tree::error::FamilyError;
use family_tree::extension::{same_text, Extension};

#[test]
fn from_str_knows_the_six_names() {
    assert_eq!(Extension::from_str("DOT"), Ok(Extension::DOT));
    assert_eq!(Extension::from_str("PNG"), Ok(Extension::PNG));
    assert_eq!(Extension::from_str("JPG"), Ok(Extension::JPG));
    assert_eq!(Extension::from_str("PDF"), Ok(Extension::PDF));
    assert_eq!(Extension::from_str("SVG"), Ok(Extension::SVG));
    assert_eq!(Extension::from_str("JSON"), Ok(Extension::JSON));
}

#[test]
fn from_str_refuses_other_texts() {
    assert_eq!(
        Extension::from_str("png"),
        Err(FamilyError::UnsupportedExtension {
            extension: "png".to_string()
        })
    );
    assert_eq!(
        Extension::from_str(""),
        Err(FamilyError::UnsupportedExtension {
            extension: String::new()
        })
    );
    assert_eq!(
        Extension::from_str("JPEG"),
        Err(FamilyError::UnsupportedExtension {
            extension: "JPEG".to_string()
        })
    );
}

#[test]
fn name_and_from_str_agree() {
    let all = [
        Extension::DOT,
        Extension::PNG,
        Extension::JPG,
        Extension::PDF,
        Extension::SVG,
        Extension::JSON,
    ];
    for e in all {
        assert_eq!(Extension::from_str(e.name()), Ok(e));
    }
    assert_eq!(Extension::JSON.name(), "JSON");
}

#[test]
fn from_extension_counts_in_upper_case() {
    assert_eq!(Extension::from_extension(Some("png")), Ok(Extension::PNG));
    assert_eq!(Extension::from_extension(Some("Json")), Ok(Extension::JSON));
    assert_eq!(Extension::from_extension(Some("SVG")), Ok(Extension::SVG));
    assert_eq!(
        Extension::from_extension(None),
        Err(FamilyError::MissingExtension)
    );
    assert_eq!(
        Extension::from_extension(Some("txt")),
        Err(FamilyError::UnsupportedExtension {
            extension: "TXT".to_string()
        })
    );
    assert_eq!(
        Extension::from_extension(Some("")),
        Err(FamilyError::UnsupportedExtension {
            extension: String::new()
        })
    );
}

#[test]
fn from_path_reads_the_extension() {
    assert_eq!(Extension::from_path("output/tree.dot"), Ok(Extension::DOT));
    assert_eq!(Extension::from_path("tree.png"), Ok(Extension::PNG));
    assert_eq!(Extension::from_path("a.b/tree.Pdf"), Ok(Extension::PDF));
    assert_eq!(Extension::from_path("tree.jpg"), Ok(Extension::JPG));
    assert_eq!(Extension::from_path("tree.old.json"), Ok(Extension::JSON));
}

#[test]
fn from_path_without_extension_is_refused() {
    assert_eq!(
        Extension::from_path("tree"),
        Err(FamilyError::MissingExtension)
    );
    assert_eq!(Extension::from_path(""), Err(FamilyError::MissingExtension));
    assert_eq!(
        Extension::from_path("out.put/tree"),
        Err(FamilyError::MissingExtension)
    );
}

#[test]
fn from_path_with_unknown_extension_is_refused() {
    assert_eq!(
        Extension::from_path("tree.txt"),
        Err(FamilyError::UnsupportedExtension {
            extension: "TXT".to_string()
        })
    );
}

#[test]
fn dot_command_names_format_input_and_output() {
    assert_eq!(
        Extension::PNG.get_dot_command("in.dot", "out.png"),
        "-Tpng in.dot -o out.png"
    );
    assert_eq!(
        Extension::JPG.get_dot_command("in.dot", "out.jpg"),
        "-Tjpg in.dot -o out.jpg"
    );
    assert_eq!(
        Extension::PDF.get_dot_command("in.dot", "out.pdf"),
        "-Tpdf in.dot -o out.pdf"
    );
    assert_eq!(
        Extension::SVG.get_dot_command("in.dot", "out.svg"),
        "-Tsvg in.dot -o out.svg"
    );
}

#[test]
fn dot_command_falls_back_to_svg() {
    assert_eq!(
        Extension::DOT.get_dot_command("a", "b"),
        "-Tsvg a -o b"
    );
    assert_eq!(
        Extension::JSON.get_dot_command("", ""),
        "-Tsvg  -o "
    );
}

#[test]
fn same_text_compares_by_content() {
    assert!(same_text("", ""));
    assert!(same_text("abc", "abc"));
    assert!(!same_text("abc", "abd"));
    assert!(!same_text("abc", "ab"));
    assert!(!same_text("ABC", "abc"));
}
