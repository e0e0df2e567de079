//! Typed, round-trippable models of two JSON documents: a package manifest
//! and a compiler project configuration.
//!
//! A document is read from a `serde_json::Value` or from JSON text into a
//! record with named fields, and written back. Reading is tolerant: a field
//! that may come in more than one shape is resolved by the kind of its
//! value, a name of an open enumeration that is not known is kept, and the
//! members of a document that are no field are kept as they are. Reading
//! fails only where the text is no JSON, the document is no object, or the
//! value of a field is of none of the kinds that the field takes.
//!
//! - [`json`]: the model of a JSON value and the operations of
//!   `serde_json` that the library builds on;
//! - [`error`]: the ways in which reading fails;
//! - [`fields`]: reading and writing single fields;
//! - [`names`]: the open enumerations;
//! - [`package`]: the package manifest;
//! - [`options`] and [`tsconfig`]: the compiler options and the project
//!   configuration;
//! - [`members`], [`field_laws`], [`name_laws`], [`package_laws`],
//!   [`options_laws`], [`tsconfig_laws`]: what is proved of the above.

pub mod error;
pub mod field_laws;
pub mod fields;
pub mod json;
pub mod members;
pub mod name_laws;
pub mod names;
pub mod options;
pub mod options_laws;
pub mod package;
pub mod package_laws;
pub mod text;
pub mod tsconfig;
pub mod tsconfig_laws;
