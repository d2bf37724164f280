//! Validation errors produced by wire to domain conversion.
use vstd::prelude::*;

verus! {

/// Why a wire event was rejected.
#[derive(Debug, Clone, Copy, PartialEq, Eq)]
pub enum SchemaErrorKind {
    /// A required field, message, oneof, or enum value is absent
    /// (an enum set to its `*_UNSPECIFIED` zero value counts as absent).
    Missing,
    /// An enum or oneof carries a value this build does not know.
    UnknownEnum,
    /// A field or the whole event exceeds its size limit (see `limits`).
    TooLarge,
    /// The value is present but structurally invalid (wrong byte length,
    /// out-of-range number, undecodable protobuf).
    Malformed,
}

/// The text that names an error kind (the variant's name).
pub open spec fn kind_name(kind: SchemaErrorKind) -> Seq<char> {
    match kind {
        SchemaErrorKind::Missing => "Missing"@,
        SchemaErrorKind::UnknownEnum => "UnknownEnum"@,
        SchemaErrorKind::TooLarge => "TooLarge"@,
        SchemaErrorKind::Malformed => "Malformed"@,
    }
}

impl SchemaErrorKind {
    /// The kind's name, e.g. `TooLarge`.
    pub fn name(&self) -> (r: &'static str)
        ensures
            r@ == kind_name(*self),
    {
        match self {
            SchemaErrorKind::Missing => "Missing",
            SchemaErrorKind::UnknownEnum => "UnknownEnum",
            SchemaErrorKind::TooLarge => "TooLarge",
            SchemaErrorKind::Malformed => "Malformed",
        }
    }
}

/// Why a wire event was rejected, and where.
///
/// `field_path` uses the domain field names, e.g. `process.file.path`,
/// `answers[3].data`, `device.uid`. Errors about the whole encoded event use
/// the path `event`.
#[derive(Debug, Clone, PartialEq, Eq)]
pub struct SchemaError {
    pub field_path: String,
    pub kind: SchemaErrorKind,
}

/// The displayed form of an error: `path: Kind`.
pub open spec fn error_text(path: Seq<char>, kind: SchemaErrorKind) -> Seq<char> {
    path + ": "@ + kind_name(kind)
}

impl SchemaError {
    pub fn new(field_path: String, kind: SchemaErrorKind) -> (r: Self)
        ensures
            r.field_path == field_path,
            r.kind == kind,
    {
        SchemaError { field_path, kind }
    }

    /// The displayed form: the field path, a colon and a space, then the kind's
    /// name (e.g. `process.file.path: TooLarge`).
    pub fn to_string(&self) -> (r: String)
        ensures
            r@ == error_text(self.field_path@, self.kind),
    {
        let mut s = self.field_path.clone();
        s.append(": ");
        s.append(self.kind.name());
        s
    }
}

/// Each kind is displayed as its variant's name, spelled as in the source:
/// `Missing`, `UnknownEnum`, `TooLarge`, `Malformed`; distinct kinds display
/// differently.
pub proof fn lemma_kind_names(a: SchemaErrorKind, b: SchemaErrorKind)
    ensures
        kind_name(SchemaErrorKind::Missing) == seq!['M', 'i', 's', 's', 'i', 'n', 'g'],
        kind_name(SchemaErrorKind::UnknownEnum) == seq!['U', 'n', 'k', 'n', 'o', 'w', 'n', 'E', 'n', 'u', 'm'],
        kind_name(SchemaErrorKind::TooLarge) == seq!['T', 'o', 'o', 'L', 'a', 'r', 'g', 'e'],
        kind_name(SchemaErrorKind::Malformed) == seq!['M', 'a', 'l', 'f', 'o', 'r', 'm', 'e', 'd'],
        kind_name(a) == kind_name(b) ==> a == b,
{
    reveal_strlit("Missing");
    reveal_strlit("UnknownEnum");
    reveal_strlit("TooLarge");
    reveal_strlit("Malformed");
    assert(kind_name(SchemaErrorKind::Missing) =~= seq!['M', 'i', 's', 's', 'i', 'n', 'g']);
    assert(kind_name(SchemaErrorKind::UnknownEnum) =~= seq!['U', 'n', 'k', 'n', 'o', 'w', 'n', 'E', 'n', 'u', 'm']);
    assert(kind_name(SchemaErrorKind::TooLarge) =~= seq!['T', 'o', 'o', 'L', 'a', 'r', 'g', 'e']);
    assert(kind_name(SchemaErrorKind::Malformed) =~= seq!['M', 'a', 'l', 'f', 'o', 'r', 'm', 'e', 'd']);
    if kind_name(a) == kind_name(b) && a != b {
        assert(kind_name(a)[0] != kind_name(b)[0] || kind_name(a).len() != kind_name(b).len());
    }
}

} // verus!
