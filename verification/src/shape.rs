//! Declarations of trackable shapes.
//!
//! A shape says which leaf component types a composite value touches and
//! with what access mode.  Shapes compose recursively out of four variants:
//! a single leaf, an optional inner shape, a fixed-arity heterogeneous
//! sequence, and a two-way sum.

use vstd::prelude::*;

use crate::type_id::ElementTypeId;

verus! {

/// How a leaf is borrowed during a pass: shared (read-only) or exclusive
/// (read-write).
#[derive(Debug, Clone, Copy, PartialEq, Eq, Structural)]
pub enum AccessMode {
    ReadOnly,
    ReadWrite,
}

/// The declaration of a trackable shape.
pub enum Shape {
    /// A single borrowed leaf of the given type, in the given mode.
    Leaf(ElementTypeId, AccessMode),
    /// An optional occurrence of the inner shape.
    Optional(Box<Shape>),
    /// An ordered, fixed-arity sequence of independently shaped elements.
    Sequence(Vec<Shape>),
    /// A two-way sum: left branch, right branch, or both.
    Sum(Box<Shape>, Box<Shape>),
}

impl Shape {
    /// The (identity, mode) pairs of every leaf of this shape, in
    /// declaration order, duplicates included.
    pub open spec fn type_list(self) -> Seq<(ElementTypeId, AccessMode)>
        decreases self,
    {
        match self {
            Shape::Leaf(t, m) => seq![(t, m)],
            Shape::Optional(inner) => inner.type_list(),
            Shape::Sequence(children) => Shape::type_list_of(children@),
            Shape::Sum(left, right) => left.type_list() + right.type_list(),
        }
    }

    /// The concatenated leaf lists of a sequence of shapes.
    pub open spec fn type_list_of(shapes: Seq<Shape>) -> Seq<(ElementTypeId, AccessMode)>
        decreases shapes,
    {
        if shapes.len() == 0 {
            Seq::empty()
        } else {
            Shape::type_list_of(shapes.subrange(0, shapes.len() - 1))
                + shapes[shapes.len() - 1].type_list()
        }
    }

    /// Enumerates the (identity, mode) pairs of every leaf of this shape, in
    /// declaration order.
    #[verifier::loop_isolation(false)]
    pub fn leaf_types(&self) -> (r: Vec<(ElementTypeId, AccessMode)>)
        ensures
            r@ == self.type_list(),
        decreases self,
    {
        match self {
            Shape::Leaf(t, m) => {
                let mut v: Vec<(ElementTypeId, AccessMode)> = Vec::new();
                v.push((*t, *m));
                proof {
                    assert(v@ =~= self.type_list());
                }
                v
            },
            Shape::Optional(inner) => inner.leaf_types(),
            Shape::Sequence(children) => {
                let mut v: Vec<(ElementTypeId, AccessMode)> = Vec::new();
                let mut i: usize = 0;
                while i < children.len()
                    invariant
                        i <= children.len(),
                        v@ == Shape::type_list_of(children@.subrange(0, i as int)),
                    decreases children.len() - i,
                {
                    proof {
                        assert(decreases_to!(*self => self->Sequence_0));
                        assert(decreases_to!(self->Sequence_0 => self->Sequence_0@));
                        assert(decreases_to!(self->Sequence_0@ => self->Sequence_0@[i as int]));
                        assert(children@ == self->Sequence_0@);
                    }
                    let mut element = children[i].leaf_types();
                    v.append(&mut element);
                    proof {
                        let taken = children@.subrange(0, i + 1);
                        assert(taken.subrange(0, taken.len() - 1)
                            =~= children@.subrange(0, i as int));
                        assert(taken[taken.len() - 1] == children@[i as int]);
                    }
                    i += 1;
                }
                proof {
                    assert(children@.subrange(0, children@.len() as int) =~= children@);
                }
                v
            },
            Shape::Sum(left, right) => {
                let mut v = left.leaf_types();
                let mut r2 = right.leaf_types();
                v.append(&mut r2);
                v
            },
        }
    }

    /// The number of leaves this shape declares, duplicates included.
    pub fn count_types(&self) -> (n: usize)
        ensures
            n == self.type_list().len(),
    {
        self.leaf_types().len()
    }
}

} // verus!
