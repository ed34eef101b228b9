//! Canonical WebIDL type model with verified union flattening,
//! argument-list expansion, descriptive naming, target-type mapping,
//! and name resolution against a symbol table.

pub mod arguments;
pub mod idl_type;
pub mod laws;
pub mod name;
pub mod resolve;
pub mod target;
