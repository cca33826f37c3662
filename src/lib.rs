//! Decoding of the Wavefront `.obj` statement stream into index data and
//! range-based partitions (groups, meshes, smoothing and merging groups).
//!
//! - `group`: ranges over the element lists and the open/close state of one group.
//! - `table`: groups keyed by name or number.
//! - `builder`: which group of a table is open while the element lists grow.
//! - `element`: points, lines and polygons.
//! - `text`, `face`, `statement`: reading arguments, face references and keywords.
//! - `parser`: the statement interpreter and its result, `RawObj`.
//! - `laws`: properties of the builders and of faces.

pub mod builder;
pub mod element;
pub mod error;
pub mod face;
pub mod group;
pub mod laws;
pub mod parser;
pub mod statement;
pub mod table;
pub mod text;
