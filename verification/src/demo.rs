//! The fixed demonstration module spec emitted by the companion tool.

use vstd::prelude::*;
use vstd::string::StringExecFns;

use crate::ir::ApiSpec;
use crate::ir::EnumVariant;
use crate::ir::EnumVariantData;
use crate::ir::StructField;
use crate::ir::TypeSpec;

verus! {

/// The shape of the demonstration spec: one enum with a unit variant, a
/// single-payload variant and a struct-shaped variant of two fields.
pub open spec fn is_demo_spec(s: ApiSpec) -> bool {
    &&& s.module@ == "test"@
    &&& s.types@.len() == 1
    &&& (s.types@[0] matches TypeSpec::Enum { name, variants } && {
        &&& name@ == "TestEnum"@
        &&& variants@.len() == 3
        &&& variants@[0].name@ == "Foo"@
        &&& variants@[0].data is Unit
        &&& variants@[1].name@ == "Bar"@
        &&& (variants@[1].data matches EnumVariantData::Single(pair) && pair.0@ == "bool"@
            && pair.1@ == "Bool"@)
        &&& variants@[2].name@ == "Qux"@
        &&& (variants@[2].data matches EnumVariantData::Struct(fs) && {
            &&& fs@.len() == 2
            &&& fs@[0].name@ == "sub1"@
            &&& fs@[0].data.0@ == "u32"@
            &&& fs@[0].data.1@ == "Int"@
            &&& fs@[1].name@ == "sub2"@
            &&& fs@[1].data.0@ == "String"@
            &&& fs@[1].data.1@ == "String"@
        })
    })
}

/// Builds the fixed demonstration module spec.
pub fn test_data_spec() -> (r: ApiSpec)
    ensures
        is_demo_spec(r),
{
    let mut fields: Vec<StructField> = Vec::new();
    fields.push(
        StructField {
            name: String::from_str("sub1"),
            data: (String::from_str("u32"), String::from_str("Int")),
        },
    );
    fields.push(
        StructField {
            name: String::from_str("sub2"),
            data: (String::from_str("String"), String::from_str("String")),
        },
    );
    let mut variants: Vec<EnumVariant> = Vec::new();
    variants.push(EnumVariant { name: String::from_str("Foo"), data: EnumVariantData::Unit });
    variants.push(
        EnumVariant {
            name: String::from_str("Bar"),
            data: EnumVariantData::Single((String::from_str("bool"), String::from_str("Bool"))),
        },
    );
    variants.push(
        EnumVariant { name: String::from_str("Qux"), data: EnumVariantData::Struct(fields) },
    );
    let mut types: Vec<TypeSpec> = Vec::new();
    types.push(TypeSpec::Enum { name: String::from_str("TestEnum"), variants });
    ApiSpec { module: String::from_str("test"), types }
}

} // verus!
