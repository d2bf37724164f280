//! Shared helpers for wire to domain validation.
//!
//! Every check reports its failure as a `SchemaError` whose path is
//! `parent.field` (or just `field` at the root).
use vstd::prelude::*;
use vstd::utf8::*;
use vstd::string::*;
use crate::error::{SchemaError, SchemaErrorKind};

verus! {

/// A validation failure as a value: the field path and the kind.
pub type Failure = (Seq<char>, SchemaErrorKind);

/// `parent.field`, or just `field` at the root.
pub open spec fn spec_join(parent: Seq<char>, field: Seq<char>) -> Seq<char> {
    if parent.len() == 0 {
        field
    } else {
        parent + seq!['.'] + field
    }
}

/// The failure at `parent.field` of the given kind.
pub open spec fn fail(parent: Seq<char>, field: Seq<char>, kind: SchemaErrorKind) -> Option<Failure> {
    Some((spec_join(parent, field), kind))
}

/// `r` is an error with exactly this path and kind.
pub open spec fn rejects<T>(r: Result<T, SchemaError>, f: Failure) -> bool {
    r matches Err(e) && e.field_path@ == f.0 && e.kind == f.1
}

/// The number of UTF-8 bytes that encode `s`.
pub open spec fn utf8_len(s: Seq<char>) -> nat {
    encode_utf8(s).len()
}

/// The byte length of a string, as `str::len` reports it.
pub fn str_len(s: &String) -> (n: usize)
    ensures
        n == utf8_len(s@),
{
    s.as_str().as_bytes().len()
}

/// `parent.field`, or just `field` at the root.
pub fn join(parent: &str, field: &str) -> (r: String)
    ensures
        r@ == spec_join(parent@, field@),
{
    if parent.is_empty() {
        field.to_owned()
    } else {
        let mut s = parent.to_owned();
        proof {
            reveal_strlit(".");
        }
        s.append(".");
        s.append(field);
        s
    }
}

pub fn err<T>(parent: &str, field: &str, kind: SchemaErrorKind) -> (r: Result<T, SchemaError>)
    ensures
        rejects(r, (spec_join(parent@, field@), kind)),
{
    Err(SchemaError::new(join(parent, field), kind))
}

/// A required sub-message or oneof.
pub fn require<T>(value: Option<T>, parent: &str, field: &str) -> (r: Result<T, SchemaError>)
    ensures
        match value {
            Some(v) => r == Ok::<T, SchemaError>(v),
            None => rejects(r, (spec_join(parent@, field@), SchemaErrorKind::Missing)),
        },
{
    match value {
        Some(v) => Ok(v),
        None => err(parent, field, SchemaErrorKind::Missing),
    }
}

/// A string with a byte-length limit.
pub fn bounded(value: String, max: usize, parent: &str, field: &str) -> (r: Result<String, SchemaError>)
    ensures
        utf8_len(value@) > max ==> rejects(r, (spec_join(parent@, field@), SchemaErrorKind::TooLarge)),
        utf8_len(value@) <= max ==> r == Ok::<String, SchemaError>(value),
{
    if str_len(&value) > max {
        err(parent, field, SchemaErrorKind::TooLarge)
    } else {
        Ok(value)
    }
}

/// A fixed-size byte field.
pub fn fixed<const N: usize>(value: Vec<u8>, parent: &str, field: &str) -> (r: Result<[u8; N], SchemaError>)
    ensures
        value@.len() == N ==> (r matches Ok(a) && a@ == value@),
        value@.len() != N ==> rejects(r, (spec_join(parent@, field@), SchemaErrorKind::Malformed)),
{
    if value.len() != N {
        return err(parent, field, SchemaErrorKind::Malformed);
    }
    let mut out: [u8; N] = vstd::array::array_fill_for_copy_types(0u8);
    let mut i: usize = 0;
    while i < N
        invariant
            i <= N,
            value@.len() == N,
            out@.len() == N,
            forall|j: int| 0 <= j < i ==> out@[j] == value@[j],
        decreases N - i,
    {
        out.set(i, value[i]);
        i += 1;
    }
    assert(out@ =~= value@);
    Ok(out)
}

/// A `uint32` wire field that must fit in `u16`.
pub fn u16_field(value: u32, parent: &str, field: &str) -> (r: Result<u16, SchemaError>)
    ensures
        value <= u16::MAX ==> r == Ok::<u16, SchemaError>(value as u16),
        value > u16::MAX ==> rejects(r, (spec_join(parent@, field@), SchemaErrorKind::Malformed)),
{
    if value <= 65535 {
        Ok(value as u16)
    } else {
        err(parent, field, SchemaErrorKind::Malformed)
    }
}

/// What a proto enum number means to this build.
pub enum EnumCode<D> {
    /// The number names the domain value `D`.
    Known(D),
    /// The number is 0, the `*_UNSPECIFIED` value.
    Unspecified,
    /// The number is one this build does not know.
    Unknown,
}

/// A proto enum field: 0 (`*_UNSPECIFIED`) is `Missing`, an unrecognized
/// number is `UnknownEnum`.
pub fn wire_enum<D>(code: EnumCode<D>, parent: &str, field: &str) -> (r: Result<D, SchemaError>)
    ensures
        match code {
            EnumCode::Known(d) => r == Ok::<D, SchemaError>(d),
            EnumCode::Unspecified => rejects(r, (spec_join(parent@, field@), SchemaErrorKind::Missing)),
            EnumCode::Unknown => rejects(r, (spec_join(parent@, field@), SchemaErrorKind::UnknownEnum)),
        },
{
    match code {
        EnumCode::Known(d) => Ok(d),
        EnumCode::Unspecified => err(parent, field, SchemaErrorKind::Missing),
        EnumCode::Unknown => err(parent, field, SchemaErrorKind::UnknownEnum),
    }
}

} // verus!
