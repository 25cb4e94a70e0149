//! What holds of every pass and of every emitted builder.
//!
//! The contracts of the library say what each function returns. The
//! statements here say what follows for any declaration, any configured
//! record and any state of a builder: which builders build, which field a
//! failing finalization names, what setters do, and how annotations add up.

pub mod accessors;
pub mod analysis;
pub mod attributes;
pub mod finalization;
pub mod slots;
