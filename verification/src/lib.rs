//! Change tracking for entity-component query passes.
//!
//! A client declares the shape of the data a query pass touches (which leaf
//! component types, read-only or read-write), builds a change registry with
//! one dirty flag per distinct leaf type, and converts each raw composite
//! value into a tracked projection.  Every mutable access through a
//! projection raises the flag of that leaf's type, so that after the pass the
//! registry answers, per type, "might any component of this type have
//! changed?".

pub mod laws;
pub mod query;
pub mod registry;
pub mod shape;
pub mod sum;
pub mod trackable;
pub mod tuples;
pub mod type_id;

pub use query::{RecordHandle, TrackableQuery, TrackedQueryBorrow, TrackedQueryIter};
pub use registry::Changes;
pub use shape::{AccessMode, Shape};
pub use sum::{Or, TrackedOr};
pub use trackable::{Opt, ReadLeaf, Trackable, TrackedMut, TrackedRef, WriteLeaf};
pub use type_id::{ElementTypeId, TypeInfo};
