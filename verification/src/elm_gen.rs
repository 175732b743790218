//! The Elm backend: renders the IR as Elm source text — a type
//! declaration, a JSON decoder and a JSON encoder per type, plus a module
//! header with an explicit export list in full mode.
//!
//! A type-text string is split on spaces; each token resolves independently
//! to a primitive decoder/encoder, a container wrapper, or a user-defined
//! type's conventionally named function. For encoding, the nullable keyword
//! composes in prefix position while the list keyword composes in suffix
//! position; this asymmetry is intentional and preserved.

use vstd::prelude::*;
use vstd::string::StringExecFns;

use crate::ir::ApiSpec;
use crate::ir::EnumVariant;
use crate::ir::EnumVariantData;
use crate::ir::StructField;
use crate::ir::TypeSpec;
use crate::text::has_space;
use crate::text::spec_starts_with_maybe;
use crate::text::split_spaces;
use crate::text::split_tokens;
use crate::text::starts_with_maybe;
use crate::text::str_eq;

verus! {

/// The decoder expression for one type-text token.
pub open spec fn elm_decoder_token_text(t: Seq<char>) -> Seq<char> {
    if t == "String"@ {
        "Json.Decode.string"@
    } else if t == "Int"@ {
        "Json.Decode.int"@
    } else if t == "Float"@ {
        "Json.Decode.float"@
    } else if t == "Bool"@ {
        "Json.Decode.bool"@
    } else if t == "List"@ {
        "Json.Decode.list"@
    } else if t == "Maybe"@ {
        "Json.Decode.nullable"@
    } else {
        "decode"@ + t
    }
}

/// The decoder expressions of all tokens, joined with single spaces.
pub open spec fn elm_decoder_chain_text(toks: Seq<Seq<char>>) -> Seq<char>
    decreases toks.len(),
{
    if toks.len() == 0 {
        Seq::<char>::empty()
    } else if toks.len() == 1 {
        elm_decoder_token_text(toks[0])
    } else {
        elm_decoder_chain_text(toks.drop_last()) + " "@ + elm_decoder_token_text(toks.last())
    }
}

/// The full decoder expression for a type-text string: its token chain,
/// parenthesized when there is more than one token.
pub open spec fn elm_decoder_text(ty: Seq<char>) -> Seq<char> {
    let toks = split_spaces(ty);
    if toks.len() > 1 {
        "("@ + elm_decoder_chain_text(toks) + ")"@
    } else {
        elm_decoder_chain_text(toks)
    }
}

/// The encoder expression for one type-text token.
pub open spec fn elm_encoder_token_text(t: Seq<char>) -> Seq<char> {
    if t == "String"@ {
        "Json.Encode.string"@
    } else if t == "Int"@ {
        "Json.Encode.int"@
    } else if t == "Float"@ {
        "Json.Encode.float"@
    } else if t == "Bool"@ {
        "Json.Encode.bool"@
    } else if t == "List"@ {
        "Json.Encode.list"@
    } else if t == "Maybe"@ {
        "Json.Encode.Extra.maybe"@
    } else {
        "encode"@ + t
    }
}

/// The encoder expressions of all tokens, joined with `sep`.
pub open spec fn elm_encoder_chain_text(toks: Seq<Seq<char>>, sep: Seq<char>) -> Seq<char>
    decreases toks.len(),
{
    if toks.len() == 0 {
        Seq::<char>::empty()
    } else if toks.len() == 1 {
        elm_encoder_token_text(toks[0])
    } else {
        elm_encoder_chain_text(toks.drop_last(), sep) + sep + elm_encoder_token_text(toks.last())
    }
}

/// The full encoder expression for a type-text string. A string headed by
/// the nullable keyword composes by plain application (prefix position);
/// any other multi-token string composes through a suffix container map.
pub open spec fn elm_encoder_text(ty: Seq<char>) -> Seq<char> {
    elm_encoder_chain_text(
        split_spaces(ty),
        if spec_starts_with_maybe(ty) {
            " "@
        } else {
            " <| List.map "@
        },
    )
}

/// Resolves one token to its decoder expression.
fn elm_decoder_token(t: &String) -> (r: String)
    ensures
        r@ == elm_decoder_token_text(t@),
{
    if str_eq(t.as_str(), "String") {
        String::from_str("Json.Decode.string")
    } else if str_eq(t.as_str(), "Int") {
        String::from_str("Json.Decode.int")
    } else if str_eq(t.as_str(), "Float") {
        String::from_str("Json.Decode.float")
    } else if str_eq(t.as_str(), "Bool") {
        String::from_str("Json.Decode.bool")
    } else if str_eq(t.as_str(), "List") {
        String::from_str("Json.Decode.list")
    } else if str_eq(t.as_str(), "Maybe") {
        String::from_str("Json.Decode.nullable")
    } else {
        let mut out = String::from_str("decode");
        out.append(t.as_str());
        out
    }
}

/// Resolves one token to its encoder expression.
fn elm_encoder_token(t: &String) -> (r: String)
    ensures
        r@ == elm_encoder_token_text(t@),
{
    if str_eq(t.as_str(), "String") {
        String::from_str("Json.Encode.string")
    } else if str_eq(t.as_str(), "Int") {
        String::from_str("Json.Encode.int")
    } else if str_eq(t.as_str(), "Float") {
        String::from_str("Json.Encode.float")
    } else if str_eq(t.as_str(), "Bool") {
        String::from_str("Json.Encode.bool")
    } else if str_eq(t.as_str(), "List") {
        String::from_str("Json.Encode.list")
    } else if str_eq(t.as_str(), "Maybe") {
        String::from_str("Json.Encode.Extra.maybe")
    } else {
        let mut out = String::from_str("encode");
        out.append(t.as_str());
        out
    }
}

/// Builds the decoder expression for a front-end type-text string.
pub fn elm_json_decoder(elm_type: &str) -> (r: String)
    ensures
        r@ == elm_decoder_text(elm_type@),
{
    let toks = split_tokens(elm_type);
    let ghost toks_view = split_spaces(elm_type@);
    let mut chain = String::new();
    let mut i: usize = 0;
    while i < toks.len()
        invariant
            i <= toks@.len(),
            toks.deep_view() == toks_view,
            toks@.len() == toks_view.len(),
            chain@ == elm_decoder_chain_text(toks_view.take(i as int)),
        decreases toks@.len() - i,
    {
        if i > 0 {
            chain.append(" ");
        }
        let piece = elm_decoder_token(&toks[i]);
        chain.append(piece.as_str());
        proof {
            assert(toks_view.take(i as int + 1).drop_last() =~~= toks_view.take(i as int));
            assert(toks_view.take(i as int + 1).last() == toks_view[i as int]);
            assert(toks_view[i as int] == toks@[i as int]@);
            assert(chain@ =~= elm_decoder_chain_text(toks_view.take(i as int + 1)));
        }
        i = i + 1;
    }
    proof {
        assert(toks_view.take(toks_view.len() as int) =~~= toks_view);
    }
    if toks.len() > 1 {
        let mut out = String::from_str("(");
        out.append(chain.as_str());
        out.append(")");
        proof {
            assert(out@ =~= elm_decoder_text(elm_type@));
        }
        out
    } else {
        chain
    }
}

/// Builds the encoder expression for a front-end type-text string.
pub fn elm_json_encoder(elm_type: &str) -> (r: String)
    ensures
        r@ == elm_encoder_text(elm_type@),
{
    let toks = split_tokens(elm_type);
    let ghost toks_view = split_spaces(elm_type@);
    let prefix_mode = starts_with_maybe(elm_type);
    let ghost sep = if prefix_mode {
        " "@
    } else {
        " <| List.map "@
    };
    let mut chain = String::new();
    let mut i: usize = 0;
    while i < toks.len()
        invariant
            i <= toks@.len(),
            toks.deep_view() == toks_view,
            toks@.len() == toks_view.len(),
            prefix_mode == spec_starts_with_maybe(elm_type@),
            sep == (if prefix_mode {
                " "@
            } else {
                " <| List.map "@
            }),
            chain@ == elm_encoder_chain_text(toks_view.take(i as int), sep),
        decreases toks@.len() - i,
    {
        if i > 0 {
            if prefix_mode {
                chain.append(" ");
            } else {
                chain.append(" <| List.map ");
            }
        }
        let piece = elm_encoder_token(&toks[i]);
        chain.append(piece.as_str());
        proof {
            assert(toks_view.take(i as int + 1).drop_last() =~~= toks_view.take(i as int));
            assert(toks_view.take(i as int + 1).last() == toks_view[i as int]);
            assert(toks_view[i as int] == toks@[i as int]@);
            assert(chain@ =~= elm_encoder_chain_text(toks_view.take(i as int + 1), sep));
        }
        i = i + 1;
    }
    proof {
        assert(toks_view.take(toks_view.len() as int) =~~= toks_view);
    }
    chain
}

/// One record-field annotation: the field name, a colon, and its type-text,
/// parenthesized when the type-text holds more than one token.
pub open spec fn elm_field_text(f: StructField) -> Seq<char> {
    if has_space(f.data.1@) {
        f.name@ + " : ("@ + f.data.1@ + ")"@
    } else {
        f.name@ + " : "@ + f.data.1@
    }
}

/// One decoder pipeline step: the required JSON key and the field's
/// decoder expression.
pub open spec fn elm_field_decoder_text(f: StructField) -> Seq<char> {
    "Json.Decode.Pipeline.required \""@ + f.name@ + "\" "@ + elm_decoder_text(f.data.1@)
}

/// One encoder object entry: the JSON key and the encoder applied to the
/// record field.
pub open spec fn elm_field_encoder_text(f: StructField) -> Seq<char> {
    "(\""@ + f.name@ + "\", "@ + elm_encoder_text(f.data.1@) + " <| record."@ + f.name@ + ")"@
}

impl StructField {
    /// Renders the field's record-type annotation.
    pub fn to_elm(&self, _indent: usize) -> (r: String)
        ensures
            r@ == elm_field_text(*self),
    {
        let mut out = String::from_str(self.name.as_str());
        if crate::text::contains_space(self.data.1.as_str()) {
            out.append(" : (");
            out.append(self.data.1.as_str());
            out.append(")");
        } else {
            out.append(" : ");
            out.append(self.data.1.as_str());
        }
        proof {
            assert(out@ =~= elm_field_text(*self));
        }
        out
    }

    /// Renders the field's decoder pipeline step.
    pub fn to_elm_decoder(&self) -> (r: String)
        ensures
            r@ == elm_field_decoder_text(*self),
    {
        let mut out = String::from_str("Json.Decode.Pipeline.required \"");
        out.append(self.name.as_str());
        out.append("\" ");
        let dec = elm_json_decoder(self.data.1.as_str());
        out.append(dec.as_str());
        proof {
            assert(out@ =~= elm_field_decoder_text(*self));
        }
        out
    }

    /// Renders the field's encoder object entry.
    pub fn to_elm_encoder(&self) -> (r: String)
        ensures
            r@ == elm_field_encoder_text(*self),
    {
        let mut out = String::from_str("(\"");
        out.append(self.name.as_str());
        out.append("\", ");
        let enc = elm_json_encoder(self.data.1.as_str());
        out.append(enc.as_str());
        out.append(" <| record.");
        out.append(self.name.as_str());
        out.append(")");
        proof {
            assert(out@ =~= elm_field_encoder_text(*self));
        }
        out
    }
}

/// One union alternative: the variant name alone, a payload type-text
/// (parenthesized when multi-token), or the subsidiary type's name for a
/// struct-shaped payload.
pub open spec fn elm_variant_text(v: EnumVariant, parent: Seq<char>) -> Seq<char> {
    match v.data {
        EnumVariantData::Unit => v.name@,
        EnumVariantData::Single(pair) => if has_space(pair.1@) {
            v.name@ + " ("@ + pair.1@ + ")"@
        } else {
            v.name@ + " "@ + pair.1@
        },
        EnumVariantData::Struct(_) => v.name@ + " "@ + parent + v.name@,
    }
}

/// One guarded decoder alternative: a discriminant test on the variant's
/// name, then the bare constructor, a mapped payload decoder, or the
/// subsidiary type's decoder.
pub open spec fn elm_variant_decoder_text(v: EnumVariant, parent: Seq<char>) -> Seq<char> {
    match v.data {
        EnumVariantData::Unit => "Json.Decode.Extra.when (Json.Decode.field \"var\" Json.Decode.string) ((==) \""@
            + v.name@ + "\") <|\n            Json.Decode.succeed "@ + v.name@,
        EnumVariantData::Single(pair) => "Json.Decode.Extra.when (Json.Decode.field \"var\" Json.Decode.string) ((==) \""@
            + v.name@ + "\") <|\n            Json.Decode.map "@ + v.name@
            + " (Json.Decode.field \"vardata\" <| "@ + elm_decoder_text(pair.1@) + ")"@,
        EnumVariantData::Struct(_) => "Json.Decode.Extra.when (Json.Decode.field \"var\" Json.Decode.string) ((==) \""@
            + v.name@ + "\") <|\n            Json.Decode.map "@ + v.name@
            + " (Json.Decode.field \"vardata\" <| decode"@ + parent + v.name@ + ")"@,
    }
}

/// One entry of the nested object built for a struct-shaped payload.
pub open spec fn elm_inline_field_text(f: StructField) -> Seq<char> {
    " ( \""@ + f.name@ + "\", "@ + elm_encoder_text(f.data.1@) + " <| record."@ + f.name@
        + " )"@
}

/// The nested-object entries of a struct-shaped payload, in field order.
pub open spec fn elm_inline_fields_text(fs: Seq<StructField>) -> Seq<char>
    decreases fs.len(),
{
    if fs.len() == 0 {
        Seq::<char>::empty()
    } else if fs.len() == 1 {
        elm_inline_field_text(fs[0])
    } else {
        elm_inline_fields_text(fs.drop_last()) + "\n                    ,"@
            + elm_inline_field_text(fs.last())
    }
}

/// One case-dispatch arm of a union encoder: the discriminant entry alone
/// for a unit variant, plus a payload entry for the other shapes. A
/// struct-shaped payload's entry is a nested object built inline from its
/// fields.
pub open spec fn elm_variant_encoder_text(v: EnumVariant) -> Seq<char> {
    match v.data {
        EnumVariantData::Unit => "\n        "@ + v.name@
            + " ->\n            Json.Encode.object\n                [ ( \"var\", Json.Encode.string \""@
            + v.name@ + "\" )\n                ]"@,
        EnumVariantData::Single(pair) => "\n        "@ + v.name@
            + " value ->\n            Json.Encode.object\n                [ ( \"var\", Json.Encode.string \""@
            + v.name@ + "\" )\n                , ( \"vardata\", "@ + elm_encoder_text(pair.1@)
            + " <| value )\n                ]"@,
        EnumVariantData::Struct(fields) => "\n        "@ + v.name@
            + " record ->\n            Json.Encode.object\n                [ ( \"var\", Json.Encode.string \""@
            + v.name@ + "\" )\n                , ( \"vardata\", Json.Encode.object\n                    ["@
            + elm_inline_fields_text(fields@) + "\n                    ] )\n                ]"@,
    }
}

/// Renders the nested-object entries for a struct-shaped payload.
fn inline_fields_to_elm(fields: &Vec<StructField>) -> (r: String)
    ensures
        r@ == elm_inline_fields_text(fields@),
{
    let mut out = String::new();
    let mut i: usize = 0;
    while i < fields.len()
        invariant
            i <= fields@.len(),
            out@ == elm_inline_fields_text(fields@.take(i as int)),
        decreases fields@.len() - i,
    {
        if i > 0 {
            out.append("\n                    ,");
        }
        let f = &fields[i];
        out.append(" ( \"");
        out.append(f.name.as_str());
        out.append("\", ");
        let enc = elm_json_encoder(f.data.1.as_str());
        out.append(enc.as_str());
        out.append(" <| record.");
        out.append(f.name.as_str());
        out.append(" )");
        proof {
            assert(fields@.take(i as int + 1).drop_last() =~= fields@.take(i as int));
            assert(fields@.take(i as int + 1).last() == fields@[i as int]);
            assert(out@ =~= elm_inline_fields_text(fields@.take(i as int + 1)));
        }
        i = i + 1;
    }
    proof {
        assert(fields@.take(fields@.len() as int) =~= fields@);
    }
    out
}

impl EnumVariant {
    /// Renders the variant as one union alternative.
    pub fn to_elm(&self, parent_type_name: &str) -> (r: String)
        ensures
            r@ == elm_variant_text(*self, parent_type_name@),
    {
        match &self.data {
            EnumVariantData::Unit => {
                let out = String::from_str(self.name.as_str());
                proof {
                    assert(out@ =~= elm_variant_text(*self, parent_type_name@));
                }
                out
            },
            EnumVariantData::Single(pair) => {
                let mut out = String::from_str(self.name.as_str());
                if crate::text::contains_space(pair.1.as_str()) {
                    out.append(" (");
                    out.append(pair.1.as_str());
                    out.append(")");
                } else {
                    out.append(" ");
                    out.append(pair.1.as_str());
                }
                proof {
                    assert(out@ =~= elm_variant_text(*self, parent_type_name@));
                }
                out
            },
            EnumVariantData::Struct(_) => {
                let mut out = String::from_str(self.name.as_str());
                out.append(" ");
                out.append(parent_type_name);
                out.append(self.name.as_str());
                proof {
                    assert(out@ =~= elm_variant_text(*self, parent_type_name@));
                }
                out
            },
        }
    }

    /// Renders the variant's guarded decoder alternative.
    pub fn to_elm_decoder(&self, parent_type_name: &str) -> (r: String)
        ensures
            r@ == elm_variant_decoder_text(*self, parent_type_name@),
    {
        let mut out = String::from_str(
            "Json.Decode.Extra.when (Json.Decode.field \"var\" Json.Decode.string) ((==) \"",
        );
        out.append(self.name.as_str());
        match &self.data {
            EnumVariantData::Unit => {
                out.append("\") <|\n            Json.Decode.succeed ");
                out.append(self.name.as_str());
            },
            EnumVariantData::Single(pair) => {
                out.append("\") <|\n            Json.Decode.map ");
                out.append(self.name.as_str());
                out.append(" (Json.Decode.field \"vardata\" <| ");
                let dec = elm_json_decoder(pair.1.as_str());
                out.append(dec.as_str());
                out.append(")");
            },
            EnumVariantData::Struct(_) => {
                out.append("\") <|\n            Json.Decode.map ");
                out.append(self.name.as_str());
                out.append(" (Json.Decode.field \"vardata\" <| decode");
                out.append(parent_type_name);
                out.append(self.name.as_str());
                out.append(")");
            },
        }
        proof {
            assert(out@ =~= elm_variant_decoder_text(*self, parent_type_name@));
        }
        out
    }

    /// Renders the variant's encoder case arm.
    pub fn to_elm_encoder(&self) -> (r: String)
        ensures
            r@ == elm_variant_encoder_text(*self),
    {
        let mut out = String::from_str("\n        ");
        out.append(self.name.as_str());
        match &self.data {
            EnumVariantData::Unit => {
                out.append(
                    " ->\n            Json.Encode.object\n                [ ( \"var\", Json.Encode.string \"",
                );
                out.append(self.name.as_str());
                out.append("\" )\n                ]");
            },
            EnumVariantData::Single(pair) => {
                out.append(
                    " value ->\n            Json.Encode.object\n                [ ( \"var\", Json.Encode.string \"",
                );
                out.append(self.name.as_str());
                out.append("\" )\n                , ( \"vardata\", ");
                let enc = elm_json_encoder(pair.1.as_str());
                out.append(enc.as_str());
                out.append(" <| value )\n                ]");
            },
            EnumVariantData::Struct(fields) => {
                out.append(
                    " record ->\n            Json.Encode.object\n                [ ( \"var\", Json.Encode.string \"",
                );
                out.append(self.name.as_str());
                out.append("\" )\n                , ( \"vardata\", Json.Encode.object\n                    [");
                let entries = inline_fields_to_elm(fields);
                out.append(entries.as_str());
                out.append("\n                    ] )\n                ]");
            },
        }
        proof {
            assert(out@ =~= elm_variant_encoder_text(*self));
        }
        out
    }
}

/// The record-field annotations, one per line, comma-led from the second
/// on.
pub open spec fn elm_fields_text(fs: Seq<StructField>) -> Seq<char>
    decreases fs.len(),
{
    if fs.len() == 0 {
        Seq::<char>::empty()
    } else if fs.len() == 1 {
        elm_field_text(fs[0])
    } else {
        elm_fields_text(fs.drop_last()) + "\n    , "@ + elm_field_text(fs.last())
    }
}

/// A record type declaration for a struct's name and fields.
pub open spec fn elm_struct_text(name: Seq<char>, fs: Seq<StructField>) -> Seq<char> {
    "type alias "@ + name + " =\n    { "@ + elm_fields_text(fs) + "\n    }"@
}

/// The decoder pipeline steps, one per line, in field order.
pub open spec fn elm_field_decoders_text(fs: Seq<StructField>) -> Seq<char>
    decreases fs.len(),
{
    if fs.len() == 0 {
        Seq::<char>::empty()
    } else if fs.len() == 1 {
        "|> "@ + elm_field_decoder_text(fs[0])
    } else {
        elm_field_decoders_text(fs.drop_last()) + "\n        |> "@
            + elm_field_decoder_text(fs.last())
    }
}

/// A struct decoder: a pipeline seeded by the constructor, one required
/// step per field.
pub open spec fn elm_struct_decoder_text(name: Seq<char>, fs: Seq<StructField>) -> Seq<char> {
    "decode"@ + name + " : Json.Decode.Decoder "@ + name + "\ndecode"@ + name
        + " =\n    Json.Decode.succeed "@ + name + "\n        "@ + elm_field_decoders_text(fs)
}

/// The encoder object entries, one per line, comma-led from the second on.
pub open spec fn elm_field_encoders_text(fs: Seq<StructField>) -> Seq<char>
    decreases fs.len(),
{
    if fs.len() == 0 {
        Seq::<char>::empty()
    } else if fs.len() == 1 {
        elm_field_encoder_text(fs[0])
    } else {
        elm_field_encoders_text(fs.drop_last()) + "\n        , "@
            + elm_field_encoder_text(fs.last())
    }
}

/// A struct encoder: a JSON object literal with one entry per field.
pub open spec fn elm_struct_encoder_text(name: Seq<char>, fs: Seq<StructField>) -> Seq<char> {
    "encode"@ + name + " : "@ + name + " -> Json.Encode.Value\nencode"@ + name
        + " record =\n    Json.Encode.object\n        [ "@ + elm_field_encoders_text(fs)
        + "\n        ]"@
}

/// Renders a record type declaration.
fn struct_to_elm(name: &str, fields: &Vec<StructField>) -> (r: String)
    ensures
        r@ == elm_struct_text(name@, fields@),
{
    let mut out = String::from_str("type alias ");
    out.append(name);
    out.append(" =\n    { ");
    let mut i: usize = 0;
    let ghost prefix = out@;
    while i < fields.len()
        invariant
            i <= fields@.len(),
            out@ == prefix + elm_fields_text(fields@.take(i as int)),
        decreases fields@.len() - i,
    {
        if i > 0 {
            out.append("\n    , ");
        }
        let piece = (&fields[i]).to_elm(1);
        out.append(piece.as_str());
        proof {
            assert(fields@.take(i as int + 1).drop_last() =~= fields@.take(i as int));
            assert(fields@.take(i as int + 1).last() == fields@[i as int]);
            assert(out@ =~= prefix + elm_fields_text(fields@.take(i as int + 1)));
        }
        i = i + 1;
    }
    out.append("\n    }");
    proof {
        assert(fields@.take(fields@.len() as int) =~= fields@);
        assert(out@ =~= elm_struct_text(name@, fields@));
    }
    out
}

/// Renders a struct decoder.
fn struct_to_elm_decoder(name: &str, fields: &Vec<StructField>) -> (r: String)
    ensures
        r@ == elm_struct_decoder_text(name@, fields@),
{
    let mut out = String::from_str("decode");
    out.append(name);
    out.append(" : Json.Decode.Decoder ");
    out.append(name);
    out.append("\ndecode");
    out.append(name);
    out.append(" =\n    Json.Decode.succeed ");
    out.append(name);
    out.append("\n        ");
    let mut i: usize = 0;
    let ghost prefix = out@;
    while i < fields.len()
        invariant
            i <= fields@.len(),
            out@ == prefix + elm_field_decoders_text(fields@.take(i as int)),
        decreases fields@.len() - i,
    {
        if i > 0 {
            out.append("\n        |> ");
        } else {
            out.append("|> ");
        }
        let piece = (&fields[i]).to_elm_decoder();
        out.append(piece.as_str());
        proof {
            assert(fields@.take(i as int + 1).drop_last() =~= fields@.take(i as int));
            assert(fields@.take(i as int + 1).last() == fields@[i as int]);
            assert(out@ =~= prefix + elm_field_decoders_text(fields@.take(i as int + 1)));
        }
        i = i + 1;
    }
    proof {
        assert(fields@.take(fields@.len() as int) =~= fields@);
        assert(out@ =~= elm_struct_decoder_text(name@, fields@));
    }
    out
}

/// Renders a struct encoder.
fn struct_to_elm_encoder(name: &str, fields: &Vec<StructField>) -> (r: String)
    ensures
        r@ == elm_struct_encoder_text(name@, fields@),
{
    let mut out = String::from_str("encode");
    out.append(name);
    out.append(" : ");
    out.append(name);
    out.append(" -> Json.Encode.Value\nencode");
    out.append(name);
    out.append(" record =\n    Json.Encode.object\n        [ ");
    let mut i: usize = 0;
    let ghost prefix = out@;
    while i < fields.len()
        invariant
            i <= fields@.len(),
            out@ == prefix + elm_field_encoders_text(fields@.take(i as int)),
        decreases fields@.len() - i,
    {
        if i > 0 {
            out.append("\n        , ");
        }
        let piece = (&fields[i]).to_elm_encoder();
        out.append(piece.as_str());
        proof {
            assert(fields@.take(i as int + 1).drop_last() =~= fields@.take(i as int));
            assert(fields@.take(i as int + 1).last() == fields@[i as int]);
            assert(out@ =~= prefix + elm_field_encoders_text(fields@.take(i as int + 1)));
        }
        i = i + 1;
    }
    out.append("\n        ]");
    proof {
        assert(fields@.take(fields@.len() as int) =~= fields@);
        assert(out@ =~= elm_struct_encoder_text(name@, fields@));
    }
    out
}

/// The union alternatives, one per line, pipe-led from the second on.
pub open spec fn elm_variants_text(vs: Seq<EnumVariant>, parent: Seq<char>) -> Seq<char>
    decreases vs.len(),
{
    if vs.len() == 0 {
        Seq::<char>::empty()
    } else if vs.len() == 1 {
        elm_variant_text(vs[0], parent)
    } else {
        elm_variants_text(vs.drop_last(), parent) + "\n    | "@ + elm_variant_text(
            vs.last(),
            parent,
        )
    }
}

/// The guarded decoder alternatives, in declaration order (first match
/// wins), comma-led from the second on.
pub open spec fn elm_variant_decoders_text(vs: Seq<EnumVariant>, parent: Seq<char>) -> Seq<char>
    decreases vs.len(),
{
    if vs.len() == 0 {
        Seq::<char>::empty()
    } else if vs.len() == 1 {
        elm_variant_decoder_text(vs[0], parent)
    } else {
        elm_variant_decoders_text(vs.drop_last(), parent) + "\n        , "@
            + elm_variant_decoder_text(vs.last(), parent)
    }
}

/// The encoder case arms, concatenated in declaration order.
pub open spec fn elm_variant_encoders_text(vs: Seq<EnumVariant>) -> Seq<char>
    decreases vs.len(),
{
    if vs.len() == 0 {
        Seq::<char>::empty()
    } else {
        elm_variant_encoders_text(vs.drop_last()) + elm_variant_encoder_text(vs.last())
    }
}

/// The subsidiary block a variant contributes ahead of its union: for a
/// struct-shaped payload, one type declaration and one decoder for the
/// type named by the enum name followed by the variant name; nothing for
/// the other shapes.
pub open spec fn elm_subtype_block_text(parent: Seq<char>, v: EnumVariant) -> Seq<char> {
    match v.data {
        EnumVariantData::Struct(fields) => elm_struct_text(parent + v.name@, fields@) + "\n\n"@
            + elm_struct_decoder_text(parent + v.name@, fields@) + "\n\n"@,
        _ => Seq::<char>::empty(),
    }
}

/// All subsidiary blocks of an enum, in variant declaration order.
pub open spec fn elm_subtypes_text(parent: Seq<char>, vs: Seq<EnumVariant>) -> Seq<char>
    decreases vs.len(),
{
    if vs.len() == 0 {
        Seq::<char>::empty()
    } else {
        elm_subtypes_text(parent, vs.drop_last()) + elm_subtype_block_text(parent, vs.last())
    }
}

/// A union type declaration, preceded by its subsidiary blocks.
pub open spec fn elm_enum_text(name: Seq<char>, vs: Seq<EnumVariant>) -> Seq<char> {
    elm_subtypes_text(name, vs) + "type "@ + name + "\n    = "@ + elm_variants_text(vs, name)
}

/// A union decoder: an ordered list of guarded alternatives.
pub open spec fn elm_enum_decoder_text(name: Seq<char>, vs: Seq<EnumVariant>) -> Seq<char> {
    "decode"@ + name + " : Json.Decode.Decoder "@ + name + "\ndecode"@ + name
        + " =\n    Json.Decode.oneOf\n        [ "@ + elm_variant_decoders_text(vs, name)
        + "\n        ]"@
}

/// A union encoder: a case dispatch over the variants.
pub open spec fn elm_enum_encoder_text(name: Seq<char>, vs: Seq<EnumVariant>) -> Seq<char> {
    "encode"@ + name + " : "@ + name + " -> Json.Encode.Value\nencode"@ + name
        + " var =\n    case var of"@ + elm_variant_encoders_text(vs)
}

/// A type's front-end declaration.
pub open spec fn elm_type_text(t: TypeSpec) -> Seq<char> {
    match t {
        TypeSpec::Struct { name, fields } => elm_struct_text(name@, fields@),
        TypeSpec::Enum { name, variants } => elm_enum_text(name@, variants@),
    }
}

/// A type's front-end decoder.
pub open spec fn elm_type_decoder_text(t: TypeSpec) -> Seq<char> {
    match t {
        TypeSpec::Struct { name, fields } => elm_struct_decoder_text(name@, fields@),
        TypeSpec::Enum { name, variants } => elm_enum_decoder_text(name@, variants@),
    }
}

/// A type's front-end encoder.
pub open spec fn elm_type_encoder_text(t: TypeSpec) -> Seq<char> {
    match t {
        TypeSpec::Struct { name, fields } => elm_struct_encoder_text(name@, fields@),
        TypeSpec::Enum { name, variants } => elm_enum_encoder_text(name@, variants@),
    }
}

impl TypeSpec {
    /// Renders the type declaration; for an enum this is preceded by one
    /// subsidiary type declaration and decoder per struct-shaped variant,
    /// in variant order.
    pub fn to_elm(&self) -> (r: String)
        ensures
            r@ == elm_type_text(*self),
    {
        match self {
            TypeSpec::Struct { name, fields } => struct_to_elm(name.as_str(), fields),
            TypeSpec::Enum { name, variants } => {
                let mut out = String::new();
                let mut i: usize = 0;
                while i < variants.len()
                    invariant
                        i <= variants@.len(),
                        out@ == elm_subtypes_text(name@, variants@.take(i as int)),
                    decreases variants@.len() - i,
                {
                    let v = &variants[i];
                    match &v.data {
                        EnumVariantData::Struct(fields) => {
                            let mut sub_name = String::from_str(name.as_str());
                            sub_name.append(v.name.as_str());
                            let decl = struct_to_elm(sub_name.as_str(), fields);
                            out.append(decl.as_str());
                            out.append("\n\n");
                            let dec = struct_to_elm_decoder(sub_name.as_str(), fields);
                            out.append(dec.as_str());
                            out.append("\n\n");
                        },
                        _ => {},
                    }
                    proof {
                        assert(variants@.take(i as int + 1).drop_last() =~= variants@.take(
                            i as int,
                        ));
                        assert(variants@.take(i as int + 1).last() == variants@[i as int]);
                        assert(out@ =~= elm_subtypes_text(name@, variants@.take(i as int + 1)));
                    }
                    i = i + 1;
                }
                proof {
                    assert(variants@.take(variants@.len() as int) =~= variants@);
                }
                out.append("type ");
                out.append(name.as_str());
                out.append("\n    = ");
                let ghost prefix = out@;
                let mut j: usize = 0;
                while j < variants.len()
                    invariant
                        j <= variants@.len(),
                        out@ == prefix + elm_variants_text(variants@.take(j as int), name@),
                    decreases variants@.len() - j,
                {
                    if j > 0 {
                        out.append("\n    | ");
                    }
                    let piece = (&variants[j]).to_elm(name.as_str());
                    out.append(piece.as_str());
                    proof {
                        assert(variants@.take(j as int + 1).drop_last() =~= variants@.take(
                            j as int,
                        ));
                        assert(variants@.take(j as int + 1).last() == variants@[j as int]);
                        assert(out@ =~= prefix + elm_variants_text(
                            variants@.take(j as int + 1),
                            name@,
                        ));
                    }
                    j = j + 1;
                }
                proof {
                    assert(variants@.take(variants@.len() as int) =~= variants@);
                    assert(out@ =~= elm_type_text(*self));
                }
                out
            },
        }
    }

    /// Renders the type's decoder.
    pub fn to_elm_decoder(&self) -> (r: String)
        ensures
            r@ == elm_type_decoder_text(*self),
    {
        match self {
            TypeSpec::Struct { name, fields } => struct_to_elm_decoder(name.as_str(), fields),
            TypeSpec::Enum { name, variants } => {
                let mut out = String::from_str("decode");
                out.append(name.as_str());
                out.append(" : Json.Decode.Decoder ");
                out.append(name.as_str());
                out.append("\ndecode");
                out.append(name.as_str());
                out.append(" =\n    Json.Decode.oneOf\n        [ ");
                let ghost prefix = out@;
                let mut i: usize = 0;
                while i < variants.len()
                    invariant
                        i <= variants@.len(),
                        out@ == prefix + elm_variant_decoders_text(
                            variants@.take(i as int),
                            name@,
                        ),
                    decreases variants@.len() - i,
                {
                    if i > 0 {
                        out.append("\n        , ");
                    }
                    let piece = (&variants[i]).to_elm_decoder(name.as_str());
                    out.append(piece.as_str());
                    proof {
                        assert(variants@.take(i as int + 1).drop_last() =~= variants@.take(
                            i as int,
                        ));
                        assert(variants@.take(i as int + 1).last() == variants@[i as int]);
                        assert(out@ =~= prefix + elm_variant_decoders_text(
                            variants@.take(i as int + 1),
                            name@,
                        ));
                    }
                    i = i + 1;
                }
                out.append("\n        ]");
                proof {
                    assert(variants@.take(variants@.len() as int) =~= variants@);
                    assert(out@ =~= elm_type_decoder_text(*self));
                }
                out
            },
        }
    }

    /// Renders the type's encoder.
    pub fn to_elm_encoder(&self) -> (r: String)
        ensures
            r@ == elm_type_encoder_text(*self),
    {
        match self {
            TypeSpec::Struct { name, fields } => struct_to_elm_encoder(name.as_str(), fields),
            TypeSpec::Enum { name, variants } => {
                let mut out = String::from_str("encode");
                out.append(name.as_str());
                out.append(" : ");
                out.append(name.as_str());
                out.append(" -> Json.Encode.Value\nencode");
                out.append(name.as_str());
                out.append(" var =\n    case var of");
                let ghost prefix = out@;
                let mut i: usize = 0;
                while i < variants.len()
                    invariant
                        i <= variants@.len(),
                        out@ == prefix + elm_variant_encoders_text(variants@.take(i as int)),
                    decreases variants@.len() - i,
                {
                    let piece = (&variants[i]).to_elm_encoder();
                    out.append(piece.as_str());
                    proof {
                        assert(variants@.take(i as int + 1).drop_last() =~= variants@.take(
                            i as int,
                        ));
                        assert(variants@.take(i as int + 1).last() == variants@[i as int]);
                    }
                    i = i + 1;
                }
                proof {
                    assert(variants@.take(variants@.len() as int) =~= variants@);
                    assert(out@ =~= elm_type_encoder_text(*self));
                }
                out
            },
        }
    }
}

/// One export-list entry: the type's exposed name (with the
/// expose-all-constructors suffix for an enum), its decoder name and its
/// encoder name.
pub open spec fn elm_export_entry_text(t: TypeSpec) -> Seq<char> {
    match t {
        TypeSpec::Struct { name, fields } => name@ + ", decode"@ + name@ + ", encode"@ + name@,
        TypeSpec::Enum { name, variants } => name@ + "(..), decode"@ + name@ + ", encode"@
            + name@,
    }
}

/// The export list, in type declaration order.
pub open spec fn elm_exports_text(ts: Seq<TypeSpec>) -> Seq<char>
    decreases ts.len(),
{
    if ts.len() == 0 {
        Seq::<char>::empty()
    } else if ts.len() == 1 {
        elm_export_entry_text(ts[0])
    } else {
        elm_exports_text(ts.drop_last()) + ", "@ + elm_export_entry_text(ts.last())
    }
}

/// One full-mode output block: type declaration, decoder and encoder, in
/// that order, blank-line separated.
pub open spec fn elm_type_block_text(t: TypeSpec) -> Seq<char> {
    elm_type_text(t) + "\n\n"@ + elm_type_decoder_text(t) + "\n\n"@ + elm_type_encoder_text(t)
}

/// All full-mode blocks, blank-line separated, in declaration order.
pub open spec fn elm_type_blocks_text(ts: Seq<TypeSpec>) -> Seq<char>
    decreases ts.len(),
{
    if ts.len() == 0 {
        Seq::<char>::empty()
    } else if ts.len() == 1 {
        elm_type_block_text(ts[0])
    } else {
        elm_type_blocks_text(ts.drop_last()) + "\n\n"@ + elm_type_block_text(ts.last())
    }
}

/// The full-mode output: module line with export list, the fixed five-line
/// import block, then the per-type blocks.
pub open spec fn elm_full_text(s: ApiSpec) -> Seq<char> {
    "module "@ + s.module@ + " exposing ("@ + elm_exports_text(s.types@)
        + ")\n\nimport Json.Decode\nimport Json.Decode.Extra\nimport Json.Decode.Pipeline\nimport Json.Encode\nimport Json.Encode.Extra\n\n"@
        + elm_type_blocks_text(s.types@)
}

/// One bare-mode output block: the type declaration followed immediately
/// by its encoder — no decoder.
pub open spec fn elm_bare_block_text(t: TypeSpec) -> Seq<char> {
    elm_type_text(t) + "\n\n"@ + elm_type_encoder_text(t)
}

/// All bare-mode blocks, blank-line separated, in declaration order.
pub open spec fn elm_bare_blocks_text(ts: Seq<TypeSpec>) -> Seq<char>
    decreases ts.len(),
{
    if ts.len() == 0 {
        Seq::<char>::empty()
    } else if ts.len() == 1 {
        elm_bare_block_text(ts[0])
    } else {
        elm_bare_blocks_text(ts.drop_last()) + "\n\n"@ + elm_bare_block_text(ts.last())
    }
}

/// The bare-mode (legacy) output: no module header, no export list, no
/// decoders.
pub open spec fn elm_bare_text(s: ApiSpec) -> Seq<char> {
    elm_bare_blocks_text(s.types@)
}

/// The whole Elm-backend output: bare mode for an empty module name, full mode
/// otherwise.
pub open spec fn elm_text(s: ApiSpec) -> Seq<char> {
    if s.module@.len() == 0 {
        elm_bare_text(s)
    } else {
        elm_full_text(s)
    }
}

/// Renders one export-list entry.
fn export_entry(t: &TypeSpec) -> (r: String)
    ensures
        r@ == elm_export_entry_text(*t),
{
    match t {
        TypeSpec::Struct { name, fields } => {
            let mut out = String::from_str(name.as_str());
            out.append(", decode");
            out.append(name.as_str());
            out.append(", encode");
            out.append(name.as_str());
            proof {
                assert(out@ =~= elm_export_entry_text(*t));
            }
            out
        },
        TypeSpec::Enum { name, variants } => {
            let mut out = String::from_str(name.as_str());
            out.append("(..), decode");
            out.append(name.as_str());
            out.append(", encode");
            out.append(name.as_str());
            proof {
                assert(out@ =~= elm_export_entry_text(*t));
            }
            out
        },
    }
}

/// Renders one full-mode block: declaration, decoder, encoder.
fn type_block_to_elm(t: &TypeSpec) -> (r: String)
    ensures
        r@ == elm_type_block_text(*t),
{
    let mut out = t.to_elm();
    out.append("\n\n");
    let dec = t.to_elm_decoder();
    out.append(dec.as_str());
    out.append("\n\n");
    let enc = t.to_elm_encoder();
    out.append(enc.as_str());
    proof {
        assert(out@ =~= elm_type_block_text(*t));
    }
    out
}

/// Renders one bare-mode block: declaration, then encoder.
fn bare_block_to_elm(t: &TypeSpec) -> (r: String)
    ensures
        r@ == elm_bare_block_text(*t),
{
    let mut out = t.to_elm();
    out.append("\n\n");
    let enc = t.to_elm_encoder();
    out.append(enc.as_str());
    proof {
        assert(out@ =~= elm_bare_block_text(*t));
    }
    out
}

/// Renders the export list.
fn exports_to_elm(types: &Vec<TypeSpec>) -> (r: String)
    ensures
        r@ == elm_exports_text(types@),
{
    let mut out = String::new();
    let mut i: usize = 0;
    while i < types.len()
        invariant
            i <= types@.len(),
            out@ == elm_exports_text(types@.take(i as int)),
        decreases types@.len() - i,
    {
        if i > 0 {
            out.append(", ");
        }
        let piece = export_entry(&types[i]);
        out.append(piece.as_str());
        proof {
            assert(types@.take(i as int + 1).drop_last() =~= types@.take(i as int));
            assert(types@.take(i as int + 1).last() == types@[i as int]);
            assert(out@ =~= elm_exports_text(types@.take(i as int + 1)));
        }
        i = i + 1;
    }
    proof {
        assert(types@.take(types@.len() as int) =~= types@);
    }
    out
}

impl ApiSpec {
    /// The full-mode generation entry point: the explicit-mode selector
    /// for callers that want the module header, export list, imports, and
    /// decoders regardless of the module name.
    pub fn to_elm_full(&self) -> (r: String)
        ensures
            r@ == elm_full_text(*self),
    {
        let mut out = String::from_str("module ");
        out.append(self.module.as_str());
        out.append(" exposing (");
        let exports = exports_to_elm(&self.types);
        out.append(exports.as_str());
        out.append(
            ")\n\nimport Json.Decode\nimport Json.Decode.Extra\nimport Json.Decode.Pipeline\nimport Json.Encode\nimport Json.Encode.Extra\n\n",
        );
        let ghost prefix = out@;
        let mut i: usize = 0;
        while i < self.types.len()
            invariant
                i <= self.types@.len(),
                out@ == prefix + elm_type_blocks_text(self.types@.take(i as int)),
            decreases self.types@.len() - i,
        {
            if i > 0 {
                out.append("\n\n");
            }
            let piece = type_block_to_elm(&self.types[i]);
            out.append(piece.as_str());
            proof {
                assert(self.types@.take(i as int + 1).drop_last() =~= self.types@.take(i as int));
                assert(self.types@.take(i as int + 1).last() == self.types@[i as int]);
                assert(out@ =~= prefix + elm_type_blocks_text(self.types@.take(i as int + 1)));
            }
            i = i + 1;
        }
        proof {
            assert(self.types@.take(self.types@.len() as int) =~= self.types@);
            assert(out@ =~= elm_full_text(*self));
        }
        out
    }

    /// The bare-mode (legacy) generation entry point: the explicit-mode
    /// selector for callers that want only type declarations and encoders.
    pub fn to_elm_bare(&self) -> (r: String)
        ensures
            r@ == elm_bare_text(*self),
    {
        let mut out = String::new();
        let mut i: usize = 0;
        while i < self.types.len()
            invariant
                i <= self.types@.len(),
                out@ == elm_bare_blocks_text(self.types@.take(i as int)),
            decreases self.types@.len() - i,
        {
            if i > 0 {
                out.append("\n\n");
            }
            let piece = bare_block_to_elm(&self.types[i]);
            out.append(piece.as_str());
            proof {
                assert(self.types@.take(i as int + 1).drop_last() =~= self.types@.take(i as int));
                assert(self.types@.take(i as int + 1).last() == self.types@[i as int]);
                assert(out@ =~= elm_bare_blocks_text(self.types@.take(i as int + 1)));
            }
            i = i + 1;
        }
        proof {
            assert(self.types@.take(self.types@.len() as int) =~= self.types@);
        }
        out
    }

    /// The Elm generation entry point. The rendering mode is
    /// selected by module-name emptiness: an empty name selects the
    /// legacy bare mode, any other name the full mode.
    pub fn to_elm(&self) -> (r: String)
        ensures
            r@ == elm_text(*self),
    {
        if self.module.as_str().unicode_len() == 0 {
            self.to_elm_bare()
        } else {
            self.to_elm_full()
        }
    }
}

} // verus!
