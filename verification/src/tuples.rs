//! Fixed-arity heterogeneous sequences of trackable shapes.
//!
//! A tuple of trackable values is itself trackable: its leaf list is the
//! concatenation of its elements' leaf lists (duplicates included — a
//! registry collapses them onto one cell), and its projection converts
//! each element independently, preserving arity and order.  Implementations
//! are written out per arity up to a fixed practical maximum.

use vstd::prelude::*;

use crate::shape::AccessMode;
use crate::trackable::Trackable;
use crate::type_id::ElementTypeId;

verus! {

impl Trackable for () {
    type Projection = ();

    open spec fn type_list(&self) -> Seq<(ElementTypeId, AccessMode)> {
        Seq::empty()
    }

    open spec fn to_tracked_spec(self) -> () {
        ()
    }

    fn count_types(&self) -> (n: usize) {
        0
    }

    fn for_each_type(&self) -> (v: Vec<(ElementTypeId, AccessMode)>) {
        let v: Vec<(ElementTypeId, AccessMode)> = Vec::new();
        proof {
            assert(v@ =~= self.type_list());
        }
        v
    }

    fn into_tracked(self) -> (t: ()) {
        ()
    }
}

impl<A: Trackable> Trackable for (A,) {
    type Projection = (<A as Trackable>::Projection,);

    open spec fn type_list(&self) -> Seq<(ElementTypeId, AccessMode)> {
        self.0.type_list()
    }

    open spec fn to_tracked_spec(self) -> (<A as Trackable>::Projection,) {
        (self.0.to_tracked_spec(),)
    }

    fn count_types(&self) -> (n: usize) {
        self.0.count_types()
    }

    fn for_each_type(&self) -> (v: Vec<(ElementTypeId, AccessMode)>) {
        self.0.for_each_type()
    }

    fn into_tracked(self) -> (t: (<A as Trackable>::Projection,)) {
        (self.0.into_tracked(),)
    }
}

impl<A: Trackable, B: Trackable> Trackable for (A, B) {
    type Projection = (<A as Trackable>::Projection, <B as Trackable>::Projection);

    open spec fn type_list(&self) -> Seq<(ElementTypeId, AccessMode)> {
        self.0.type_list() + self.1.type_list()
    }

    open spec fn to_tracked_spec(self) -> (
        <A as Trackable>::Projection,
        <B as Trackable>::Projection,
    ) {
        (self.0.to_tracked_spec(), self.1.to_tracked_spec())
    }

    fn count_types(&self) -> (n: usize) {
        self.for_each_type().len()
    }

    fn for_each_type(&self) -> (v: Vec<(ElementTypeId, AccessMode)>) {
        let mut v = self.0.for_each_type();
        let mut rest = self.1.for_each_type();
        v.append(&mut rest);
        v
    }

    fn into_tracked(self) -> (t: (
        <A as Trackable>::Projection,
        <B as Trackable>::Projection,
    )) {
        let (a, b) = self;
        (a.into_tracked(), b.into_tracked())
    }
}

impl<A: Trackable, B: Trackable, C: Trackable> Trackable for (A, B, C) {
    type Projection = (
        <A as Trackable>::Projection,
        <B as Trackable>::Projection,
        <C as Trackable>::Projection,
    );

    open spec fn type_list(&self) -> Seq<(ElementTypeId, AccessMode)> {
        self.0.type_list() + self.1.type_list() + self.2.type_list()
    }

    open spec fn to_tracked_spec(self) -> (
        <A as Trackable>::Projection,
        <B as Trackable>::Projection,
        <C as Trackable>::Projection,
    ) {
        (self.0.to_tracked_spec(), self.1.to_tracked_spec(), self.2.to_tracked_spec())
    }

    fn count_types(&self) -> (n: usize) {
        self.for_each_type().len()
    }

    fn for_each_type(&self) -> (v: Vec<(ElementTypeId, AccessMode)>) {
        let mut v = self.0.for_each_type();
        let mut second = self.1.for_each_type();
        let mut third = self.2.for_each_type();
        v.append(&mut second);
        v.append(&mut third);
        v
    }

    fn into_tracked(self) -> (t: (
        <A as Trackable>::Projection,
        <B as Trackable>::Projection,
        <C as Trackable>::Projection,
    )) {
        let (a, b, c) = self;
        (a.into_tracked(), b.into_tracked(), c.into_tracked())
    }
}

impl<A: Trackable, B: Trackable, C: Trackable, D: Trackable> Trackable for (A, B, C, D) {
    type Projection = (
        <A as Trackable>::Projection,
        <B as Trackable>::Projection,
        <C as Trackable>::Projection,
        <D as Trackable>::Projection,
    );

    open spec fn type_list(&self) -> Seq<(ElementTypeId, AccessMode)> {
        self.0.type_list() + self.1.type_list() + self.2.type_list() + self.3.type_list()
    }

    open spec fn to_tracked_spec(self) -> (
        <A as Trackable>::Projection,
        <B as Trackable>::Projection,
        <C as Trackable>::Projection,
        <D as Trackable>::Projection,
    ) {
        (
            self.0.to_tracked_spec(),
            self.1.to_tracked_spec(),
            self.2.to_tracked_spec(),
            self.3.to_tracked_spec(),
        )
    }

    fn count_types(&self) -> (n: usize) {
        self.for_each_type().len()
    }

    fn for_each_type(&self) -> (v: Vec<(ElementTypeId, AccessMode)>) {
        let mut v = self.0.for_each_type();
        let mut second = self.1.for_each_type();
        let mut third = self.2.for_each_type();
        let mut fourth = self.3.for_each_type();
        v.append(&mut second);
        v.append(&mut third);
        v.append(&mut fourth);
        v
    }

    fn into_tracked(self) -> (t: (
        <A as Trackable>::Projection,
        <B as Trackable>::Projection,
        <C as Trackable>::Projection,
        <D as Trackable>::Projection,
    )) {
        let (a, b, c, d) = self;
        (a.into_tracked(), b.into_tracked(), c.into_tracked(), d.into_tracked())
    }
}

} // verus!
