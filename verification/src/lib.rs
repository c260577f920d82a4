//! Verified core of a configuration-struct generator: attribute grammar,
//! field classification, code generation and the run-time merge rules that
//! the generated code follows.

pub mod text;
pub mod ident;
pub mod error;
pub mod attr;
pub mod validate;
pub mod outside;
pub mod meta;
pub mod field_attrs;
pub mod ty;
pub mod origin;
pub mod structure;
pub mod merge;
pub mod doc;
pub mod names;
pub mod gen_override;
pub mod gen_fields;
pub mod gen_struct;
pub mod lib_config;
pub mod adapter;
pub mod laws;
pub mod promises;
