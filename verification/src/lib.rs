//! A verified core for a local SQL workbench over an embedded database file.
//!
//! The library holds the decision logic of the workbench: a connection
//! registry that caches one handle per database path, schema introspection
//! over catalog snapshots, row-page query planning, lexical statement
//! routing, SQL text generation for batch edits, and the transactional
//! protocol that applies a batch edit all-or-nothing.  Everything that
//! touches the storage engine itself (opening files, executing statements)
//! stays outside; the library is handed plain values and returns plain
//! values, with contracts proved over them.

pub mod edits;
pub mod registry;
pub mod router;
pub mod rows;
pub mod schema;
pub mod text;
pub mod values;
