//! Schema generation for fog-pack.
//!
//! A schema is made from descriptors: each data shape says what its name is,
//! whether its validator is shared, and how its validator is computed from
//! those of the shapes it is made of. The generator resolves the
//! descriptors into a type table of shared validators, which are referred
//! to by name, so that a shape that holds itself comes to an end. When the
//! schema is built, every name is shortened as far as it stays apart from
//! all others, and every reference is rewritten to the shortened name.
//!
//! - [`name`], [`text`]: names of shapes and their text.
//! - [`trie`], [`registry`], [`shorten`], [`rename`]: the identifiers in
//!   use, what their short forms are, and the map from one to the other.
//! - [`tree`], [`fixup`], [`outside`]: validators as trees, the rewriting of
//!   their references, and the way to fog-pack's own validators.
//! - [`table`], [`generator`], [`schema`]: the type table, the generator and
//!   the finished schema.
//! - [`schema_impls`]: the descriptors of the shapes that every program has.
//! - [`fog`]: the calls into fog-pack.

pub mod error;
pub mod fixup;
pub mod fog;
pub mod generator;
pub mod name;
pub mod order;
pub mod outside;
pub mod registry;
pub mod rename;
pub mod schema;
pub mod schema_impls;
pub mod shorten;
pub mod table;
pub mod text;
pub mod tree;
pub mod trie;

pub use error::{CollisionPolicy, SchemaError};
pub use generator::{FogValidate, SchemaGenerator};
pub use name::Name;
pub use schema::Schema;
pub use tree::ValidatorTree;
pub use trie::IdentTracker;
