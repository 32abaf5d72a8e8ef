//! Validation of the types of a shader module.
//!
//! A module's types live in a table in dependency order: a type refers only
//! to types that come before it. The validator walks the table once and
//! records, for each type, its [`TypeFlags`](flags::TypeFlags) and whether it
//! fits the uniform and the storage layout rules.

pub mod alignment;
pub mod capabilities;
pub mod error;
pub mod flags;
pub mod ir;
pub mod scalar;
pub mod struct_layout;
pub mod theorems;
pub mod type_info;
pub mod validator;
pub mod width;
