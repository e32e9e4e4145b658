//! Core of an issue-tracker agenda generator.  A report declares which
//! repositories are asked which queries and which named bucket each
//! answer feeds; the engine expands the report into independent fetch
//! tasks, folds the completed results into buckets, orders the list
//! buckets, and assembles the flat context that a template renderer
//! consumes.  The fetching, scheduling and rendering themselves are left
//! to the host around the library.

pub mod model;
pub mod sort;
pub mod engine;
pub mod gate;
pub mod reports;
