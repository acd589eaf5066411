//! Struct-of-optionals projection.
//!
//! Given a plain named-field record declaration, this library derives the
//! "projection" of an optional value of that record: for each ownership mode
//! (by value, by shared reference, by exclusive reference) a new record type
//! whose fields are each individually optional, together with a conversion
//! from a mode-wrapped instance and a dispatch binding that exposes one
//! uniform `project()` operation on the optional source.
//!
//! The pipeline works on a plain, validated model of the declaration
//! ([`schema::Decl`] and [`schema::Schema`]) and emits a structured
//! description of the generated definitions ([`generate::Item`]); rendering
//! that description to host-language source text is left to the surrounding
//! front end.

pub mod config;
pub mod error;
pub mod generate;
pub mod prelude;
pub mod schema;
pub mod semantics;

pub use prelude::OptionProjectable;
pub use prelude::Projectable;
pub use prelude::ResultProjectable;

pub use generate::projection;
