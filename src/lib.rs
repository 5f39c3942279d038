//! Resolution of typed configuration from a flat namespace of environment
//! variables, driven by a declarative schema.
//!
//! A [`SchemaNode`] describes a structure as a tree of fields. [`resolve`]
//! walks it against an [`Env`], composing each leaf's variable name from the
//! prefix chain and the field's attributes, parsing the variable's text, and
//! returns the [`Value`] tree or the first [`FromEnvError`] met.

pub mod env;
pub mod error;
pub mod laws;
pub mod resolve;
pub mod scalar;
pub mod schema;
pub mod text;

pub use env::Env;
pub use error::{FromEnvError, SchemaError};
pub use resolve::{resolve, resolve_root, FromEnv, Value};
pub use scalar::{parse, IntType, ScalarType, ScalarValue};
pub use schema::{FieldDescriptor, FieldKind, SchemaNode};
