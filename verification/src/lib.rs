//! Synthesis of builder-pattern code for record types.
//!
//! Given the declaration of a struct with named fields, annotated by its
//! author, one synthesis pass works out what to emit for it:
//!
//! * the struct itself, unchanged;
//! * a companion builder type with one absent-or-present slot for every field
//!   that takes part, a constructor, and one chainable setter for each slot;
//! * two finalizations, `build()` and `build_with_defaults()`, that check the
//!   required fields and construct the struct, filling in defaults;
//! * `get_<field>` and `set_<field>` accessors on the struct, where asked for.
//!
//! A pass runs in three steps, leaves first:
//!
//! 1. The attribute model ([`field_attributes`], [`record`]) reads the
//!    `builder(..)` annotations on the fields and on the type into one
//!    normalized configuration for each field. Annotations are lists in a
//!    small grammar of their own ([`meta`]) over the host compiler's tokens
//!    ([`token`], [`decl`]).
//! 2. The strategy resolver ([`strategy`]) decides, for every field and both
//!    finalizations, where the field's value comes from.
//! 3. The synthesizer ([`expansion`]) lists what is emitted, part by part.
//!
//! [`builder::expand_builder`] runs the whole pass. Rendering an
//! [`expansion::Expansion`] as tokens is left to the procedural macro around
//! this library.
//!
//! What the emitted code does when it runs is stated in [`model`], for the
//! builder, and in [`accessors`], for the finished record. What holds of
//! every pass and of everything it emits is proved in [`theorems`].

pub mod accessors;
pub mod builder;
pub mod decl;
pub mod error;
pub mod expansion;
pub mod field_attributes;
pub mod meta;
pub mod model;
pub mod record;
pub mod strategy;
pub mod text;
pub mod theorems;
pub mod token;
