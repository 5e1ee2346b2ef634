//! Diagnostics for the build phase: every schema violation names the exact
//! key chain and the expected shape, and violations are aggregated so that a
//! single invocation surfaces every problem at once.

use vstd::prelude::*;

verus! {

/// Where in the document an extraction failed: a top-level key, optionally an
/// element index within that key's list, optionally a field of that element.
#[derive(Debug, PartialEq, Eq)]
pub struct KeyPath {
    pub key: String,
    pub index: Option<usize>,
    pub sub: Option<String>,
}

/// The abstract form of a `KeyPath`.
pub struct KeyPathV {
    pub key: Seq<char>,
    pub index: Option<int>,
    pub sub: Option<Seq<char>>,
}

impl View for KeyPath {
    type V = KeyPathV;

    open spec fn view(&self) -> KeyPathV {
        KeyPathV {
            key: self.key@,
            index: match self.index {
                Some(i) => Some(i as int),
                None => None,
            },
            sub: match self.sub {
                Some(s) => Some(s@),
                None => None,
            },
        }
    }
}

/// The shape a conversion expected at the failing key.
#[derive(Debug, PartialEq, Eq, Structural, Clone, Copy)]
pub enum Expected {
    /// A string scalar.
    Text,
    /// A non-empty string naming a filesystem path.
    PathText,
    /// A list of records.
    List,
    /// A record (a nested table).
    Record,
    /// One of the action kind tags of an install document.
    ActionKind,
}

/// One build-phase diagnostic.
#[derive(Debug, PartialEq, Eq)]
pub enum BuildError {
    /// The document text is not well-formed structured data.
    DocumentParse(String),
    /// A required key is absent.
    MissingKey(KeyPath),
    /// A key is present but its value has the wrong shape.
    TypeMismatch(KeyPath, Expected),
    /// Two environment bindings share a name.
    DuplicateBinding(String),
    /// Two generated files share a path.
    DuplicateFile(String),
    /// The shell family is not one of the supported set.
    UnsupportedFamily(String),
    /// An environment binding's name is not a valid variable identifier.
    InvalidEnvName(String),
}

/// The abstract form of a `BuildError`.
pub enum BuildErrorV {
    DocumentParse,
    MissingKey(KeyPathV),
    TypeMismatch(KeyPathV, Expected),
    DuplicateBinding(Seq<char>),
    DuplicateFile(Seq<char>),
    UnsupportedFamily(Seq<char>),
    InvalidEnvName(Seq<char>),
}

impl View for BuildError {
    type V = BuildErrorV;

    open spec fn view(&self) -> BuildErrorV {
        match self {
            BuildError::DocumentParse(_) => BuildErrorV::DocumentParse,
            BuildError::MissingKey(p) => BuildErrorV::MissingKey(p@),
            BuildError::TypeMismatch(p, e) => BuildErrorV::TypeMismatch(p@, *e),
            BuildError::DuplicateBinding(n) => BuildErrorV::DuplicateBinding(n@),
            BuildError::DuplicateFile(p) => BuildErrorV::DuplicateFile(p@),
            BuildError::UnsupportedFamily(f) => BuildErrorV::UnsupportedFamily(f@),
            BuildError::InvalidEnvName(n) => BuildErrorV::InvalidEnvName(n@),
        }
    }
}

impl KeyPath {
    /// A copy with the same fields.
    pub fn duplicate(&self) -> (r: KeyPath)
        ensures
            r == *self,
    {
        KeyPath {
            key: self.key.clone(),
            index: match &self.index {
                Some(i) => Some(*i),
                None => None,
            },
            sub: match &self.sub {
                Some(s) => Some(s.clone()),
                None => None,
            },
        }
    }
}

impl BuildError {
    /// A copy with the same fields.
    pub fn duplicate(&self) -> (r: BuildError)
        ensures
            r == *self,
    {
        match self {
            BuildError::DocumentParse(m) => BuildError::DocumentParse(m.clone()),
            BuildError::MissingKey(p) => BuildError::MissingKey(p.duplicate()),
            BuildError::TypeMismatch(p, e) => BuildError::TypeMismatch(p.duplicate(), *e),
            BuildError::DuplicateBinding(n) => BuildError::DuplicateBinding(n.clone()),
            BuildError::DuplicateFile(p) => BuildError::DuplicateFile(p.clone()),
            BuildError::UnsupportedFamily(f) => BuildError::UnsupportedFamily(f.clone()),
            BuildError::InvalidEnvName(n) => BuildError::InvalidEnvName(n.clone()),
        }
    }
}

/// The abstract form of a list of diagnostics.
pub open spec fn errs_view(es: Seq<BuildError>) -> Seq<BuildErrorV> {
    es.map_values(|e: BuildError| e@)
}

/// Every schema violation found in one pass over a document, never empty.
#[derive(Debug, PartialEq, Eq)]
pub struct BuildValidationError {
    pub errors: Vec<BuildError>,
}

impl View for BuildValidationError {
    type V = Seq<BuildErrorV>;

    open spec fn view(&self) -> Seq<BuildErrorV> {
        errs_view(self.errors@)
    }
}

} // verus!
