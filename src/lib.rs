//! Safe classification of untrusted primitive values into closed sets of
//! named constants.
//!
//! A raw value read from outside the program is classified either as one of
//! the declared variants or as an explicit unknown that keeps the raw value.
//! Declarations are validated once, before any classification can happen:
//! `registry` does so at run time for any list of named values, and `hello`
//! is a declaration written out by hand and proved to follow the same rules.
mod classification;
pub mod hello;
pub mod registry;

pub use crate::classification::{AsEnum, ConstEnum};
pub use crate::classification::ConstEnum::Unknown;
pub use crate::classification::ConstEnum::Wellknown;
pub use crate::hello::{Hello, HelloEnum};
pub use crate::registry::{DefError, EnumDef, FieldType, Variant};
