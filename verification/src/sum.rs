//! The two-way sum shape: left branch, right branch, or both.
//!
//! A sum mirrors the host query system's either/both combinator.  Its leaf
//! set is the union of both branches' leaf sets, so a non-engaged branch
//! still declares its leaf types; converting preserves which branch(es)
//! are engaged, and a non-engaged branch contributes no projection and no
//! flag activity.

use vstd::prelude::*;

use crate::shape::{AccessMode, Shape};
use crate::trackable::Trackable;
use crate::type_id::ElementTypeId;

verus! {

/// A two-way sum of trackable shapes.  A non-engaged branch is represented
/// by its declaration, so that a registry built for the sum reserves the
/// leaf types of both branches.
pub enum Or<L, R> {
    /// Only the left branch is engaged; the right branch's declaration.
    Left(L, Shape),
    /// The left branch's declaration; only the right branch is engaged.
    Right(Shape, R),
    /// Both branches are engaged.
    Both(L, R),
}

/// The tracked projection of a two-way sum: the engaged branch(es),
/// converted recursively.
pub enum TrackedOr<L, R> {
    Left(L),
    Right(R),
    Both(L, R),
}

impl<L: Trackable, R: Trackable> Trackable for Or<L, R> {
    type Projection = TrackedOr<<L as Trackable>::Projection, <R as Trackable>::Projection>;

    open spec fn type_list(&self) -> Seq<(ElementTypeId, AccessMode)> {
        match self {
            Or::Left(l, right_decl) => l.type_list() + right_decl.type_list(),
            Or::Right(left_decl, r) => left_decl.type_list() + r.type_list(),
            Or::Both(l, r) => l.type_list() + r.type_list(),
        }
    }

    open spec fn to_tracked_spec(self) -> TrackedOr<
        <L as Trackable>::Projection,
        <R as Trackable>::Projection,
    > {
        match self {
            Or::Left(l, _) => TrackedOr::Left(l.to_tracked_spec()),
            Or::Right(_, r) => TrackedOr::Right(r.to_tracked_spec()),
            Or::Both(l, r) => TrackedOr::Both(l.to_tracked_spec(), r.to_tracked_spec()),
        }
    }

    fn count_types(&self) -> (n: usize) {
        self.for_each_type().len()
    }

    fn for_each_type(&self) -> (v: Vec<(ElementTypeId, AccessMode)>) {
        match self {
            Or::Left(l, right_decl) => {
                let mut v = l.for_each_type();
                let mut rest = right_decl.leaf_types();
                v.append(&mut rest);
                v
            },
            Or::Right(left_decl, r) => {
                let mut v = left_decl.leaf_types();
                let mut rest = r.for_each_type();
                v.append(&mut rest);
                v
            },
            Or::Both(l, r) => {
                let mut v = l.for_each_type();
                let mut rest = r.for_each_type();
                v.append(&mut rest);
                v
            },
        }
    }

    fn into_tracked(self) -> (t: TrackedOr<
        <L as Trackable>::Projection,
        <R as Trackable>::Projection,
    >) {
        match self {
            Or::Left(l, _) => TrackedOr::Left(l.into_tracked()),
            Or::Right(_, r) => TrackedOr::Right(r.into_tracked()),
            Or::Both(l, r) => TrackedOr::Both(l.into_tracked(), r.into_tracked()),
        }
    }
}

} // verus!
