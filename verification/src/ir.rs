//! The intermediate representation: an immutable tree describing a module,
//! its types, their fields, and enum-variant payload shapes.
//!
//! Field and variant order is significant and is preserved verbatim by both
//! backends. A type-text pair carries the already-resolved spelling of a
//! field or payload type for each backend; the generators only tokenize and
//! re-render these strings, they never validate them.

use vstd::prelude::*;

verus! {

/// The payload shape of an enum variant: no payload (a unit variant), a
/// single positional payload (as a pair of backend type-texts), or an
/// ordered set of named fields shaped like a top-level struct.
#[derive(Debug)]
pub enum EnumVariantData {
    Unit,
    Single((String, String)),
    Struct(Vec<StructField>),
}

/// A named struct field with its pair of backend type-texts
/// (systems-language spelling first, front-end spelling second).
#[derive(Debug)]
pub struct StructField {
    pub name: String,
    pub data: (String, String),
}

/// A named enum variant together with its payload shape.
#[derive(Debug)]
pub struct EnumVariant {
    pub name: String,
    pub data: EnumVariantData,
}

/// A top-level type: a struct with ordered fields, or a tagged-union enum
/// with ordered variants.
#[derive(Debug)]
pub enum TypeSpec {
    Struct { name: String, fields: Vec<StructField> },
    Enum { name: String, variants: Vec<EnumVariant> },
}

/// A module: its name (empty meaning legacy/bare front-end rendering) and
/// an ordered sequence of type specs.
#[derive(Debug)]
pub struct ApiSpec {
    pub module: String,
    pub types: Vec<TypeSpec>,
}

} // verus!
