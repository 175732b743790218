//! Schema-to-text generation: an intermediate representation of modules,
//! structs and tagged-union enums, with two code-generating backends.
//!
//! The Rust backend renders the schema as Rust source (structs and
//! enums with serialization attribute headers); the Elm backend renders it as
//! Elm source (type declarations, JSON decoders and encoders,
//! and a module header with an export list).

pub mod demo;
pub mod elm_gen;
pub mod ir;
pub mod laws;
pub mod rust_gen;
pub mod text;

pub use demo::test_data_spec;
pub use elm_gen::elm_json_decoder;
pub use elm_gen::elm_json_encoder;
pub use ir::ApiSpec;
pub use ir::EnumVariant;
pub use ir::EnumVariantData;
pub use ir::StructField;
pub use ir::TypeSpec;
