//! The extensions of output files that the exporters know.

use vstd::prelude::*;
use vstd::string::*;

use crate::error::FamilyError;
use crate::utils::{follows_a_dot, get_extension};

verus! {

/// The kind of an output file, told by its extension.
#[derive(Debug, Clone, Copy, PartialEq, Eq, Structural)]
pub enum Extension {
    DOT,
    PNG,
    JPG,
    PDF,
    SVG,
    JSON,
}

/// The extension that the upper-case name `name` stands for.
pub open spec fn extension_named(name: Seq<char>) -> Option<Extension> {
    if name == "DOT"@ {
        Some(Extension::DOT)
    } else if name == "PNG"@ {
        Some(Extension::PNG)
    } else if name == "JPG"@ {
        Some(Extension::JPG)
    } else if name == "PDF"@ {
        Some(Extension::PDF)
    } else if name == "SVG"@ {
        Some(Extension::SVG)
    } else if name == "JSON"@ {
        Some(Extension::JSON)
    } else {
        None
    }
}

/// `text` in upper case, as the standard library converts it.
pub uninterp spec fn uppercase_text(text: Seq<char>) -> Seq<char>;

/// `str::to_uppercase`: the upper-case form of `text`, which depends on the
/// text alone.
#[verifier::external_body]
fn to_uppercase(text: &str) -> (upper: String)
    ensures
        upper@ == uppercase_text(text@),
{
    text.to_uppercase()
}

/// Whether `path` holds, right behind a dot, an extension whose upper-case
/// form is the name of `extension`.
pub open spec fn names_kind(path: Seq<char>, extension: Extension) -> bool {
    exists|ext: Seq<char>|
        #[trigger] follows_a_dot(path, ext) && extension_named(uppercase_text(ext)) == Some(
            extension,
        )
}

/// Whether `path` holds, right behind a dot, an extension whose upper-case
/// form is `name`, and `name` is the name of no known kind.
pub open spec fn names_unknown(path: Seq<char>, name: Seq<char>) -> bool {
    &&& extension_named(name) is None
    &&& exists|ext: Seq<char>| #[trigger] follows_a_dot(path, ext) && name == uppercase_text(ext)
}

/// A known name is the name of the kind it stands for.
pub proof fn lemma_named_kind_has_the_name(name: Seq<char>)
    ensures
        extension_named(name) matches Some(extension) ==> extension.name_text() == name,
{
}

/// Whether two texts are the same.
pub fn same_text(a: &str, b: &str) -> (same: bool)
    ensures
        same == (a@ == b@),
{
    String::from_str(a) == String::from_str(b)
}

impl Extension {
    /// The format flag that selects this kind of output in the layout tool.
    /// Kinds that the tool does not draw, `DOT` and `JSON`, fall back to the
    /// flag for `SVG`.
    pub open spec fn format_flag(self) -> Seq<char> {
        match self {
            Extension::PNG => "-Tpng "@,
            Extension::JPG => "-Tjpg "@,
            Extension::PDF => "-Tpdf "@,
            _ => "-Tsvg "@,
        }
    }

    /// The upper-case name of the extension.
    pub open spec fn name_text(self) -> Seq<char> {
        match self {
            Extension::DOT => "DOT"@,
            Extension::PNG => "PNG"@,
            Extension::JPG => "JPG"@,
            Extension::PDF => "PDF"@,
            Extension::SVG => "SVG"@,
            Extension::JSON => "JSON"@,
        }
    }

    /// The upper-case name of the extension.
    pub fn name(&self) -> (name: &'static str)
        ensures
            name@ == self.name_text(),
    {
        match self {
            Extension::DOT => "DOT",
            Extension::PNG => "PNG",
            Extension::JPG => "JPG",
            Extension::PDF => "PDF",
            Extension::SVG => "SVG",
            Extension::JSON => "JSON",
        }
    }

    /// The extension with the upper-case name `s`; any other text is
    /// refused as unsupported.
    pub fn from_str(s: &str) -> (extension: Result<Extension, FamilyError>)
        ensures
            match extension {
                Ok(e) => extension_named(s@) == Some(e),
                Err(e) => extension_named(s@) is None && (e matches FamilyError::UnsupportedExtension {
                    extension: name,
                } && name@ == s@),
            },
    {
        if same_text(s, "DOT") {
            Ok(Extension::DOT)
        } else if same_text(s, "PNG") {
            Ok(Extension::PNG)
        } else if same_text(s, "JPG") {
            Ok(Extension::JPG)
        } else if same_text(s, "PDF") {
            Ok(Extension::PDF)
        } else if same_text(s, "SVG") {
            Ok(Extension::SVG)
        } else if same_text(s, "JSON") {
            Ok(Extension::JSON)
        } else {
            Err(FamilyError::UnsupportedExtension { extension: String::from_str(s) })
        }
    }

    /// The kind of file that a path with the extension `found` names, where
    /// `found` is what the path was found to end in: a path without extension
    /// is refused as such; else the extension counts in upper case.
    pub fn from_extension(found: Option<&str>) -> (extension: Result<Extension, FamilyError>)
        ensures
            match extension {
                Ok(e) => found matches Some(ext) && extension_named(uppercase_text(ext@))
                    == Some(e),
                Err(FamilyError::MissingExtension) => found is None,
                Err(FamilyError::UnsupportedExtension { extension: name }) => found matches Some(ext)
                    && name@ == uppercase_text(ext@) && extension_named(name@) is None,
                Err(_) => false,
            },
    {
        match found {
            None => Err(FamilyError::MissingExtension),
            Some(ext) => {
                let upper = to_uppercase(ext);
                Extension::from_str(upper.as_str())
            },
        }
    }

    /// The kind of file that `path` names. A path without a dot has no
    /// extension and is refused as such. For any other path the extension is
    /// the one that the platform's path rules find.
    pub fn from_path(path: &str) -> (extension: Result<Extension, FamilyError>)
        ensures
            !path@.contains('.') ==> extension == Err::<Extension, FamilyError>(
                FamilyError::MissingExtension,
            ),
            match extension {
                Ok(e) => names_kind(path@, e),
                Err(FamilyError::MissingExtension) => true,
                Err(FamilyError::UnsupportedExtension { extension: name }) => names_unknown(
                    path@,
                    name@,
                ),
                Err(_) => false,
            },
    {
        let found = get_extension(path);
        proof {
            if let Some(ext) = found {
                let i = choose|i: int|
                    0 < i && i + ext@.len() <= path@.len() && path@[i - 1] == '.'
                        && #[trigger] path@.subrange(i, i + ext@.len()) == ext@;
                assert(path@.contains(path@[i - 1]));
            }
        }
        Extension::from_extension(found)
    }

    /// The arguments that make the layout tool read `file_in` and write this
    /// kind of output to `file_out`.
    pub fn get_dot_command(&self, file_in: &str, file_out: &str) -> (command: String)
        ensures
            command@ == self.format_flag() + file_in@ + " -o "@ + file_out@,
    {
        let mut command = match self {
            Extension::PNG => String::from_str("-Tpng "),
            Extension::JPG => String::from_str("-Tjpg "),
            Extension::PDF => String::from_str("-Tpdf "),
            _ => String::from_str("-Tsvg "),
        };
        command.append(file_in);
        command.append(" -o ");
        command.append(file_out);
        command
    }
}

} // verus!
