//! The failures that compiling, storing and synthesising packages can report.
use vstd::prelude::*;

verus! {

/// What went wrong, with the text that names the culprit.
#[derive(Debug)]
pub enum Error {
    /// A package, global, response set or dependency is not in the registry.
    NotFound(String),
    /// A stored file could not be decoded.
    Malformed(String),
    /// A placeholder names a prompt that no response answers.
    UnresolvedPlaceholder(String),
    /// The text of a field after substitution does not parse as the field's type.
    TypeMismatch { field: String, text: String },
    /// A volume is named like a file that the backend reserves for itself.
    ReservedName(String),
    /// Reading, writing or renaming a file failed.
    IoFailure(String),
    /// The package's source cannot run on the backend that was asked for.
    BackendMismatch(String),
    /// A stored package carries another title than the one it is stored under.
    TitleMismatch { name: String, version: String },
    /// A unit template names a variable that is not known.
    UnknownVariable(String),
}

/// The mathematical content of an [`Error`].
pub ghost enum Fault {
    NotFound(Seq<char>),
    Malformed(Seq<char>),
    UnresolvedPlaceholder(Seq<char>),
    TypeMismatch { field: Seq<char>, text: Seq<char> },
    ReservedName(Seq<char>),
    IoFailure(Seq<char>),
    BackendMismatch(Seq<char>),
    TitleMismatch { name: Seq<char>, version: Seq<char> },
    UnknownVariable(Seq<char>),
}

impl View for Error {
    type V = Fault;

    open spec fn view(&self) -> Fault {
        match self {
            Error::NotFound(s) => Fault::NotFound(s@),
            Error::Malformed(s) => Fault::Malformed(s@),
            Error::UnresolvedPlaceholder(s) => Fault::UnresolvedPlaceholder(s@),
            Error::TypeMismatch { field, text } => Fault::TypeMismatch { field: field@, text: text@ },
            Error::ReservedName(s) => Fault::ReservedName(s@),
            Error::IoFailure(s) => Fault::IoFailure(s@),
            Error::BackendMismatch(s) => Fault::BackendMismatch(s@),
            Error::TitleMismatch { name, version } => Fault::TitleMismatch {
                name: name@,
                version: version@,
            },
            Error::UnknownVariable(s) => Fault::UnknownVariable(s@),
        }
    }
}

/// The message that reports a failure.
pub open spec fn fault_text(f: Fault) -> Seq<char> {
    match f {
        Fault::NotFound(s) => "not found: "@ + s,
        Fault::Malformed(s) => "malformed: "@ + s,
        Fault::UnresolvedPlaceholder(k) => "no response for prompt `"@ + k + "`"@,
        Fault::TypeMismatch { field, text } => "field `"@ + field + "` cannot hold `"@ + text
            + "`"@,
        Fault::ReservedName(n) => "volume name `"@ + n + "` is reserved by the backend"@,
        Fault::IoFailure(s) => "i/o failure: "@ + s,
        Fault::BackendMismatch(s) => s,
        Fault::TitleMismatch { name, version } => "stored package is not titled "@ + name + "-"@
            + version,
        Fault::UnknownVariable(n) => "invalid template variable '"@ + n + "'"@,
    }
}

impl Error {
    /// The message that reports this failure.
    pub fn to_string(&self) -> (r: String)
        ensures
            r@ == fault_text(self@),
    {
        match self {
            Error::NotFound(s) => String::from_str("not found: ").concat(s.as_str()),
            Error::Malformed(s) => String::from_str("malformed: ").concat(s.as_str()),
            Error::UnresolvedPlaceholder(k) => String::from_str("no response for prompt `").concat(
                k.as_str(),
            ).concat("`"),
            Error::TypeMismatch { field, text } => String::from_str("field `").concat(
                field.as_str(),
            ).concat("` cannot hold `").concat(text.as_str()).concat("`"),
            Error::ReservedName(n) => String::from_str("volume name `").concat(n.as_str()).concat(
                "` is reserved by the backend",
            ),
            Error::IoFailure(s) => String::from_str("i/o failure: ").concat(s.as_str()),
            Error::BackendMismatch(s) => s.clone(),
            Error::TitleMismatch { name, version } => String::from_str(
                "stored package is not titled ",
            ).concat(name.as_str()).concat("-").concat(version.as_str()),
            Error::UnknownVariable(n) => String::from_str("invalid template variable '").concat(
                n.as_str(),
            ).concat("'"),
        }
    }
}

} // verus!
