//! Descriptors of the shapes that every program has: the primitives and the
//! containers of the standard library.

pub mod array;
pub mod basics;
pub mod crates;
pub mod fog_types;
pub mod maps;
pub mod primitives;
pub mod reverse;
pub mod sequences;
pub mod std_types;
pub mod time;
pub mod tuple;
pub mod wrapper;
