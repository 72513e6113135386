//! Verified synthesis of accessor and builder methods for struct declarations.
//!
//! A [`declaration::Declaration`] describes an annotated type. The accessor
//! generator turns it into one implementation block whose methods are selected
//! field by field from the `get`, `set` and `all` markers; the builder generator
//! turns it into a wrapper type with one chainable setter per field and a
//! finalizer. Both demand a struct with named fields: a caller makes the shape
//! test of [`shape::unsupported_shape`] first and aborts with its diagnostic,
//! an [`shape::UnsupportedShape`], on every other declaration.

pub mod accessors;
pub mod builder;
pub mod declaration;
pub mod fragment;
pub mod laws;
pub mod render;
pub mod shape;

pub use accessors::derive_get_set;
pub use builder::derive_builder;
