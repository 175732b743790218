//! The Rust backend: renders the IR as Rust source text — structs and
//! tagged-union enums with fixed serialization-attribute header lines.
//!
//! Each render function is pure; its contract pins the produced text, one
//! character sequence per input, via the `*_text` spec functions below.

use vstd::prelude::*;
use vstd::string::StringExecFns;

use crate::ir::ApiSpec;
use crate::ir::EnumVariant;
use crate::ir::EnumVariantData;
use crate::ir::StructField;
use crate::ir::TypeSpec;
use crate::text::indent_text;

verus! {

/// One struct-field line: indentation, optional visibility marker, name,
/// type-text and a trailing comma.
pub open spec fn rust_field_text(f: StructField, ind: nat, is_pub: bool) -> Seq<char> {
    indent_text(ind) + (if is_pub {
        "pub "@
    } else {
        Seq::<char>::empty()
    }) + f.name@ + ": "@ + f.data.0@ + ",\n"@
}

/// The concatenation of the field lines, in declaration order.
pub open spec fn rust_fields_text(fs: Seq<StructField>, ind: nat, is_pub: bool) -> Seq<char>
    decreases fs.len(),
{
    if fs.len() == 0 {
        Seq::<char>::empty()
    } else {
        rust_fields_text(fs.drop_last(), ind, is_pub) + rust_field_text(fs.last(), ind, is_pub)
    }
}

/// The payload part of a variant line: nothing for a unit variant, a
/// parenthesized type for a single payload, or a nested brace block of
/// private fields for a struct-shaped payload.
pub open spec fn rust_variant_data_text(d: EnumVariantData, ind: nat) -> Seq<char> {
    match d {
        EnumVariantData::Unit => Seq::<char>::empty(),
        EnumVariantData::Single(pair) => "("@ + pair.0@ + ")"@,
        EnumVariantData::Struct(fields) => " {\n"@ + rust_fields_text(fields@, (ind + 1) as nat, false)
            + indent_text(ind) + "}"@,
    }
}

/// One variant line: indentation, name, payload part and a trailing comma.
pub open spec fn rust_variant_text(v: EnumVariant, ind: nat) -> Seq<char> {
    indent_text(ind) + v.name@ + rust_variant_data_text(v.data, ind) + ",\n"@
}

/// The concatenation of the variant lines, in declaration order.
pub open spec fn rust_variants_text(vs: Seq<EnumVariant>, ind: nat) -> Seq<char>
    decreases vs.len(),
{
    if vs.len() == 0 {
        Seq::<char>::empty()
    } else {
        rust_variants_text(vs.drop_last(), ind) + rust_variant_text(vs.last(), ind)
    }
}

/// A whole type: attribute header line(s), then the struct or enum block
/// with its fields or variants at depth one.
pub open spec fn rust_type_text(t: TypeSpec) -> Seq<char> {
    match t {
        TypeSpec::Struct { name, fields } => "#[derive(Debug, serde::Serialize, serde::Deserialize)]\npub struct "@
            + name@ + " {\n"@ + rust_fields_text(fields@, 1, true) + "}"@,
        TypeSpec::Enum { name, variants } => "#[derive(Debug, serde::Serialize, serde::Deserialize)]\n#[serde(tag = \"var\", content = \"vardata\")]\npub enum "@
            + name@ + " {\n"@ + rust_variants_text(variants@, 1) + "}"@,
    }
}

/// All types of the module joined with a blank line; no types, no text.
pub open spec fn rust_types_text(ts: Seq<TypeSpec>) -> Seq<char>
    decreases ts.len(),
{
    if ts.len() == 0 {
        Seq::<char>::empty()
    } else if ts.len() == 1 {
        rust_type_text(ts[0])
    } else {
        rust_types_text(ts.drop_last()) + "\n\n"@ + rust_type_text(ts.last())
    }
}

/// The whole Rust-backend output for a module spec.
pub open spec fn rust_text(s: ApiSpec) -> Seq<char> {
    rust_types_text(s.types@)
}

impl StructField {
    /// Renders the field as one struct-field line.
    pub fn to_rust(&self, indent: usize, add_pub: bool) -> (r: String)
        ensures
            r@ == rust_field_text(*self, indent as nat, add_pub),
    {
        let mut out = crate::text::indent(indent);
        if add_pub {
            out.append("pub ");
        }
        out.append(self.name.as_str());
        out.append(": ");
        out.append(self.data.0.as_str());
        out.append(",\n");
        proof {
            assert(out@ =~= rust_field_text(*self, indent as nat, add_pub));
        }
        out
    }
}

/// Renders a field sequence as consecutive struct-field lines.
fn fields_to_rust(fields: &Vec<StructField>, ind: usize, is_pub: bool) -> (r: String)
    ensures
        r@ == rust_fields_text(fields@, ind as nat, is_pub),
{
    let mut out = String::new();
    let mut i: usize = 0;
    while i < fields.len()
        invariant
            i <= fields@.len(),
            out@ == rust_fields_text(fields@.take(i as int), ind as nat, is_pub),
        decreases fields@.len() - i,
    {
        let piece = (&fields[i]).to_rust(ind, is_pub);
        out.append(piece.as_str());
        proof {
            assert(fields@.take(i as int + 1).drop_last() =~= fields@.take(i as int));
            assert(fields@.take(i as int + 1).last() == fields@[i as int]);
        }
        i = i + 1;
    }
    proof {
        assert(fields@.take(fields@.len() as int) =~= fields@);
    }
    out
}

impl EnumVariantData {
    /// Renders the payload part of a variant line.
    pub fn to_rust(&self, indent: usize) -> (r: String)
        requires
            indent < usize::MAX,
        ensures
            r@ == rust_variant_data_text(*self, indent as nat),
    {
        match self {
            EnumVariantData::Unit => String::new(),
            EnumVariantData::Single(pair) => {
                let mut out = String::from_str("(");
                out.append(pair.0.as_str());
                out.append(")");
                proof {
                    assert(out@ =~= rust_variant_data_text(*self, indent as nat));
                }
                out
            },
            EnumVariantData::Struct(fields) => {
                let mut out = String::from_str(" {\n");
                let body = fields_to_rust(fields, indent + 1, false);
                out.append(body.as_str());
                let closing_indent = crate::text::indent(indent);
                out.append(closing_indent.as_str());
                out.append("}");
                proof {
                    assert(out@ =~= rust_variant_data_text(*self, indent as nat));
                }
                out
            },
        }
    }
}

impl EnumVariant {
    /// Renders the variant as one enum-variant line.
    pub fn to_rust(&self, indent: usize) -> (r: String)
        requires
            indent < usize::MAX,
        ensures
            r@ == rust_variant_text(*self, indent as nat),
    {
        let mut out = crate::text::indent(indent);
        out.append(self.name.as_str());
        let payload = self.data.to_rust(indent);
        out.append(payload.as_str());
        out.append(",\n");
        proof {
            assert(out@ =~= rust_variant_text(*self, indent as nat));
        }
        out
    }
}

/// Renders a variant sequence as consecutive enum-variant lines.
fn variants_to_rust(variants: &Vec<EnumVariant>, ind: usize) -> (r: String)
    requires
        ind < usize::MAX,
    ensures
        r@ == rust_variants_text(variants@, ind as nat),
{
    let mut out = String::new();
    let mut i: usize = 0;
    while i < variants.len()
        invariant
            i <= variants@.len(),
            ind < usize::MAX,
            out@ == rust_variants_text(variants@.take(i as int), ind as nat),
        decreases variants@.len() - i,
    {
        let piece = (&variants[i]).to_rust(ind);
        out.append(piece.as_str());
        proof {
            assert(variants@.take(i as int + 1).drop_last() =~= variants@.take(i as int));
            assert(variants@.take(i as int + 1).last() == variants@[i as int]);
        }
        i = i + 1;
    }
    proof {
        assert(variants@.take(variants@.len() as int) =~= variants@);
    }
    out
}

impl TypeSpec {
    /// Renders the type as a full struct or enum block with its attribute
    /// header line(s).
    pub fn to_rust(&self) -> (r: String)
        ensures
            r@ == rust_type_text(*self),
    {
        match self {
            TypeSpec::Struct { name, fields } => {
                let mut out = String::from_str(
                    "#[derive(Debug, serde::Serialize, serde::Deserialize)]\npub struct ",
                );
                out.append(name.as_str());
                out.append(" {\n");
                let body = fields_to_rust(fields, 1, true);
                out.append(body.as_str());
                out.append("}");
                proof {
                    assert(out@ =~= rust_type_text(*self));
                }
                out
            },
            TypeSpec::Enum { name, variants } => {
                let mut out = String::from_str(
                    "#[derive(Debug, serde::Serialize, serde::Deserialize)]\n#[serde(tag = \"var\", content = \"vardata\")]\npub enum ",
                );
                out.append(name.as_str());
                out.append(" {\n");
                let body = variants_to_rust(variants, 1);
                out.append(body.as_str());
                out.append("}");
                proof {
                    assert(out@ =~= rust_type_text(*self));
                }
                out
            },
        }
    }
}

/// Renders all types, joined with a blank line.
fn types_to_rust(types: &Vec<TypeSpec>) -> (r: String)
    ensures
        r@ == rust_types_text(types@),
{
    let mut out = String::new();
    let mut i: usize = 0;
    while i < types.len()
        invariant
            i <= types@.len(),
            out@ == rust_types_text(types@.take(i as int)),
        decreases types@.len() - i,
    {
        if i > 0 {
            out.append("\n\n");
        }
        let piece = (&types[i]).to_rust();
        out.append(piece.as_str());
        proof {
            assert(types@.take(i as int + 1).drop_last() =~= types@.take(i as int));
            assert(types@.take(i as int + 1).last() == types@[i as int]);
            assert(out@ =~= rust_types_text(types@.take(i as int + 1)));
        }
        i = i + 1;
    }
    proof {
        assert(types@.take(types@.len() as int) =~= types@);
    }
    out
}

impl ApiSpec {
    /// The Rust generation entry point: the whole Rust-backend
    /// output for this module spec.
    pub fn to_rust(&self) -> (r: String)
        ensures
            r@ == rust_text(*self),
    {
        types_to_rust(&self.types)
    }
}

} // verus!
