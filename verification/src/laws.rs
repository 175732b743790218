//! The library-level laws of the two backends, each proved from the spec
//! functions that the render contracts are stated over.

use vstd::prelude::*;

use crate::elm_gen::elm_bare_block_text;
use crate::elm_gen::elm_bare_blocks_text;
use crate::elm_gen::elm_bare_text;
use crate::elm_gen::elm_decoder_chain_text;
use crate::elm_gen::elm_decoder_text;
use crate::elm_gen::elm_enum_text;
use crate::elm_gen::elm_export_entry_text;
use crate::elm_gen::elm_exports_text;
use crate::elm_gen::elm_field_text;
use crate::elm_gen::elm_fields_text;
use crate::elm_gen::elm_full_text;
use crate::elm_gen::elm_struct_decoder_text;
use crate::elm_gen::elm_struct_text;
use crate::elm_gen::elm_subtype_block_text;
use crate::elm_gen::elm_subtypes_text;
use crate::elm_gen::elm_text;
use crate::elm_gen::elm_type_block_text;
use crate::elm_gen::elm_type_blocks_text;
use crate::elm_gen::elm_variant_text;
use crate::elm_gen::elm_variants_text;
use crate::ir::ApiSpec;
use crate::ir::EnumVariant;
use crate::ir::EnumVariantData;
use crate::ir::StructField;
use crate::ir::TypeSpec;
use crate::rust_gen::rust_field_text;
use crate::rust_gen::rust_fields_text;
use crate::rust_gen::rust_text;
use crate::rust_gen::rust_type_text;
use crate::rust_gen::rust_types_text;
use crate::rust_gen::rust_variant_text;
use crate::rust_gen::rust_variants_text;
use crate::text::has_space;
use crate::text::split_spaces;

verus! {

/// Determinism: each backend's output is a function of the IR alone, so
/// any two renderings of the same module spec are identical character for
/// character.
pub proof fn lemma_render_deterministic(s: ApiSpec, a1: Seq<char>, a2: Seq<char>, b1: Seq<char>, b2: Seq<char>)
    requires
        a1 == rust_text(s),
        a2 == rust_text(s),
        b1 == elm_text(s),
        b2 == elm_text(s),
    ensures
        a1 == a2,
        b1 == b2,
{
}

/// Emptiness: a module spec with no types renders to the empty string
/// under the Rust backend and under the Elm bare mode, while the Elm full
/// mode still renders the module line with an empty export list and the
/// fixed import block.
pub proof fn lemma_empty_module(s: ApiSpec)
    requires
        s.types@.len() == 0,
    ensures
        rust_text(s) == Seq::<char>::empty(),
        elm_bare_text(s) == Seq::<char>::empty(),
        elm_full_text(s) == "module "@ + s.module@
            + " exposing ()\n\nimport Json.Decode\nimport Json.Decode.Extra\nimport Json.Decode.Pipeline\nimport Json.Encode\nimport Json.Encode.Extra\n\n"@,
{
    reveal_strlit(" exposing (");
    reveal_strlit(
        ")\n\nimport Json.Decode\nimport Json.Decode.Extra\nimport Json.Decode.Pipeline\nimport Json.Encode\nimport Json.Encode.Extra\n\n",
    );
    reveal_strlit(
        " exposing ()\n\nimport Json.Decode\nimport Json.Decode.Extra\nimport Json.Decode.Pipeline\nimport Json.Encode\nimport Json.Encode.Extra\n\n",
    );
    assert(elm_full_text(s) =~= "module "@ + s.module@
        + " exposing ()\n\nimport Json.Decode\nimport Json.Decode.Extra\nimport Json.Decode.Pipeline\nimport Json.Encode\nimport Json.Encode.Extra\n\n"@);
}

/// Order preservation, Rust backend: appending a field, variant or type to
/// the IR appends its rendering at the end of the output, after everything
/// already declared; nothing is reordered.
pub proof fn lemma_rust_output_order(
    fs: Seq<StructField>,
    f: StructField,
    vs: Seq<EnumVariant>,
    v: EnumVariant,
    ts: Seq<TypeSpec>,
    t: TypeSpec,
    ind: nat,
    is_pub: bool,
)
    ensures
        rust_fields_text(fs.push(f), ind, is_pub) == rust_fields_text(fs, ind, is_pub)
            + rust_field_text(f, ind, is_pub),
        rust_variants_text(vs.push(v), ind) == rust_variants_text(vs, ind) + rust_variant_text(
            v,
            ind,
        ),
        rust_types_text(ts.push(t)) == (if ts.len() == 0 {
            rust_type_text(t)
        } else {
            rust_types_text(ts) + "\n\n"@ + rust_type_text(t)
        }),
{
    assert(fs.push(f).drop_last() =~= fs);
    assert(fs.push(f).last() == f);
    assert(vs.push(v).drop_last() =~= vs);
    assert(vs.push(v).last() == v);
    assert(ts.push(t).drop_last() =~= ts);
    assert(ts.push(t).last() == t);
    if ts.len() == 0 {
        assert(ts.push(t)[0] == t);
    }
}

/// Order preservation, Elm backend: appending a field, variant or type to
/// the IR appends its rendering at the end of the corresponding artifact —
/// record annotations, union alternatives, export-list entries and
/// full-mode blocks all follow declaration order.
pub proof fn lemma_elm_output_order(
    fs: Seq<StructField>,
    f: StructField,
    vs: Seq<EnumVariant>,
    v: EnumVariant,
    ts: Seq<TypeSpec>,
    t: TypeSpec,
    parent: Seq<char>,
)
    ensures
        elm_fields_text(fs.push(f)) == (if fs.len() == 0 {
            elm_field_text(f)
        } else {
            elm_fields_text(fs) + "\n    , "@ + elm_field_text(f)
        }),
        elm_variants_text(vs.push(v), parent) == (if vs.len() == 0 {
            elm_variant_text(v, parent)
        } else {
            elm_variants_text(vs, parent) + "\n    | "@ + elm_variant_text(v, parent)
        }),
        elm_exports_text(ts.push(t)) == (if ts.len() == 0 {
            elm_export_entry_text(t)
        } else {
            elm_exports_text(ts) + ", "@ + elm_export_entry_text(t)
        }),
        elm_type_blocks_text(ts.push(t)) == (if ts.len() == 0 {
            elm_type_block_text(t)
        } else {
            elm_type_blocks_text(ts) + "\n\n"@ + elm_type_block_text(t)
        }),
        elm_bare_blocks_text(ts.push(t)) == (if ts.len() == 0 {
            elm_bare_block_text(t)
        } else {
            elm_bare_blocks_text(ts) + "\n\n"@ + elm_bare_block_text(t)
        }),
{
    assert(fs.push(f).drop_last() =~= fs);
    assert(fs.push(f).last() == f);
    assert(vs.push(v).drop_last() =~= vs);
    assert(vs.push(v).last() == v);
    assert(ts.push(t).drop_last() =~= ts);
    assert(ts.push(t).last() == t);
    if fs.len() == 0 {
        assert(fs.push(f)[0] == f);
    }
    if vs.len() == 0 {
        assert(vs.push(v)[0] == v);
    }
    if ts.len() == 0 {
        assert(ts.push(t)[0] == t);
    }
}

/// Subsidiary-type placement: an enum renders as its subsidiary blocks
/// followed by the union declaration; each struct-shaped variant
/// contributes exactly one subsidiary type declaration and one subsidiary
/// decoder, named by the enum name followed by the variant name, in
/// variant declaration order, and every other variant contributes nothing.
pub proof fn lemma_subsidiary_placement(parent: Seq<char>, vs: Seq<EnumVariant>, v: EnumVariant)
    ensures
        elm_enum_text(parent, vs) == elm_subtypes_text(parent, vs) + "type "@ + parent
            + "\n    = "@ + elm_variants_text(vs, parent),
        elm_subtypes_text(parent, vs.push(v)) == elm_subtypes_text(parent, vs)
            + elm_subtype_block_text(parent, v),
        (match v.data {
            EnumVariantData::Struct(fields) => elm_subtype_block_text(parent, v)
                == elm_struct_text(parent + v.name@, fields@) + "\n\n"@
                + elm_struct_decoder_text(parent + v.name@, fields@) + "\n\n"@,
            _ => elm_subtype_block_text(parent, v) == Seq::<char>::empty(),
        }),
{
    assert(vs.push(v).drop_last() =~= vs);
    assert(vs.push(v).last() == v);
}

/// Parenthesization: a type-text splits into more than one token exactly
/// when it contains a space; a multi-token type-text is parenthesized when
/// used as a bare field annotation or as a decoder expression, and a
/// single-token one is not.
pub proof fn lemma_parenthesization(f: StructField)
    ensures
        split_spaces(f.data.1@).len() > 1 <==> has_space(f.data.1@),
        has_space(f.data.1@) ==> elm_field_text(f) == f.name@ + " : ("@ + f.data.1@ + ")"@,
        !has_space(f.data.1@) ==> elm_field_text(f) == f.name@ + " : "@ + f.data.1@,
        has_space(f.data.1@) ==> elm_decoder_text(f.data.1@) == "("@ + elm_decoder_chain_text(
            split_spaces(f.data.1@),
        ) + ")"@,
        !has_space(f.data.1@) ==> elm_decoder_text(f.data.1@) == elm_decoder_chain_text(
            split_spaces(f.data.1@),
        ),
{
    crate::text::lemma_split_spaces_count(f.data.1@);
    crate::text::lemma_split_spaces_len(f.data.1@);
}

/// Parenthesization of a bare union-variant payload: a multi-token
/// payload type-text is parenthesized after the variant name, a
/// single-token one stands bare.
pub proof fn lemma_parenthesization_variant(v: EnumVariant, parent: Seq<char>)
    ensures
        (match v.data {
            EnumVariantData::Single(pair) => elm_variant_text(v, parent) == (if has_space(
                pair.1@,
            ) {
                v.name@ + " ("@ + pair.1@ + ")"@
            } else {
                v.name@ + " "@ + pair.1@
            }),
            _ => true,
        }),
{
}

} // verus!
