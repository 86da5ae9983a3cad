//! A tour of Rust's constructs (records, enums, traits, generics, case
//! dispatch, modules, polymorphic drawing, derived traits) whose every
//! line of output is stated and proved.

pub mod copyable;
pub mod decimal;
pub mod dispatch;
pub mod generic;
pub mod my_module;
pub mod program;
pub mod record;
pub mod shape;
pub mod variant;
