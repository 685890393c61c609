//! The trackable capability and the leaf and optional projections.
//!
//! A trackable value knows which leaf types its shape touches and converts
//! into a tracked projection.  Projections expose reads transparently;
//! every operation that grants mutable access marks the leaf's type in the
//! bound registry first (write-barrier semantics: the flag means "might
//! have changed", not "provably changed").

use vstd::prelude::*;

use crate::registry::{list_has_id, mark, Changes};
use crate::shape::{AccessMode, Shape};
use crate::type_id::ElementTypeId;

verus! {

/// A value whose shape participates in change tracking.
pub trait Trackable: Sized {
    /// The tracked projection this value converts into.
    type Projection;

    /// The (identity, mode) pairs of every leaf of this value's shape, in
    /// declaration order, duplicates included.
    spec fn type_list(&self) -> Seq<(ElementTypeId, AccessMode)>;

    /// The projection `into_tracked` produces.
    spec fn to_tracked_spec(self) -> Self::Projection;

    /// The number of leaves of this value's shape, duplicates included.
    fn count_types(&self) -> (n: usize)
        ensures
            n == self.type_list().len(),
    ;

    /// Enumerates the (identity, mode) pair of every leaf of this value's
    /// shape, in declaration order.
    fn for_each_type(&self) -> (v: Vec<(ElementTypeId, AccessMode)>)
        ensures
            v@ == self.type_list(),
    ;

    /// Converts this raw value into its tracked projection.  Conversion
    /// touches no flag.
    fn into_tracked(self) -> (t: Self::Projection)
        ensures
            t == self.to_tracked_spec(),
    ;
}

/// A read-only borrowed leaf: a value of the leaf type registered under
/// `type_id`, taken for the duration of one pass.
pub struct ReadLeaf<T> {
    pub type_id: ElementTypeId,
    pub value: T,
}

impl<T> ReadLeaf<T> {
    /// A read-only leaf of the given type identity.
    pub fn new(type_id: ElementTypeId, value: T) -> (r: ReadLeaf<T>)
        ensures
            r.type_id == type_id,
            r.value == value,
    {
        ReadLeaf { type_id, value }
    }
}

/// A read-write borrowed leaf: a value of the leaf type registered under
/// `type_id`, taken exclusively for the duration of one pass.
pub struct WriteLeaf<T> {
    pub type_id: ElementTypeId,
    pub value: T,
}

impl<T> WriteLeaf<T> {
    /// A read-write leaf of the given type identity.
    pub fn new(type_id: ElementTypeId, value: T) -> (r: WriteLeaf<T>)
        ensures
            r.type_id == type_id,
            r.value == value,
    {
        WriteLeaf { type_id, value }
    }
}

impl<T> Trackable for ReadLeaf<T> {
    type Projection = TrackedRef<T>;

    open spec fn type_list(&self) -> Seq<(ElementTypeId, AccessMode)> {
        seq![(self.type_id, AccessMode::ReadOnly)]
    }

    open spec fn to_tracked_spec(self) -> TrackedRef<T> {
        TrackedRef { type_id: self.type_id, value: self.value }
    }

    fn count_types(&self) -> (n: usize) {
        1
    }

    fn for_each_type(&self) -> (v: Vec<(ElementTypeId, AccessMode)>) {
        let mut v: Vec<(ElementTypeId, AccessMode)> = Vec::new();
        v.push((self.type_id, AccessMode::ReadOnly));
        proof {
            assert(v@ =~= self.type_list());
        }
        v
    }

    fn into_tracked(self) -> (t: TrackedRef<T>) {
        TrackedRef { type_id: self.type_id, value: self.value }
    }
}

impl<T> Trackable for WriteLeaf<T> {
    type Projection = TrackedMut<T>;

    open spec fn type_list(&self) -> Seq<(ElementTypeId, AccessMode)> {
        seq![(self.type_id, AccessMode::ReadWrite)]
    }

    open spec fn to_tracked_spec(self) -> TrackedMut<T> {
        TrackedMut { type_id: self.type_id, value: self.value }
    }

    fn count_types(&self) -> (n: usize) {
        1
    }

    fn for_each_type(&self) -> (v: Vec<(ElementTypeId, AccessMode)>) {
        let mut v: Vec<(ElementTypeId, AccessMode)> = Vec::new();
        v.push((self.type_id, AccessMode::ReadWrite));
        proof {
            assert(v@ =~= self.type_list());
        }
        v
    }

    fn into_tracked(self) -> (t: TrackedMut<T>) {
        TrackedMut { type_id: self.type_id, value: self.value }
    }
}

/// The tracked projection of a read-only leaf.  Reads are transparent and
/// flag nothing; an explicit mark is available but never invoked
/// implicitly.
pub struct TrackedRef<T> {
    pub type_id: ElementTypeId,
    pub value: T,
}

impl<T> TrackedRef<T> {
    /// Read access to the wrapped value.  No flag is touched.
    pub fn get(&self) -> (r: &T)
        ensures
            r == self.value,
    {
        &self.value
    }

    /// Explicitly marks this leaf's type as changed in `changes`.
    pub fn set_changed(&self, changes: &mut Changes)
        requires
            old(changes).wf(),
            old(changes).reserved(self.type_id.id),
        ensures
            final(changes).wf(),
            final(changes).table() == mark(old(changes).table(), self.type_id.id),
            forall|x: u64| final(changes).reserved(x) == old(changes).reserved(x),
            forall|x: u64|
                final(changes).flagged(x) == (old(changes).flagged(x) || x == self.type_id.id),
    {
        changes.set_changed(self.type_id);
    }

    /// Releases the wrapped value at the end of the pass.
    pub fn into_inner(self) -> (r: T)
        ensures
            r == self.value,
    {
        self.value
    }
}

/// The tracked projection of a read-write leaf.  Reads are transparent;
/// every write goes through `set`, which marks the leaf's type before the
/// new value is stored — even a write of the value already held.
///
/// The fields are public so that contracts can speak of them; the tracking
/// guarantees hold of passes that write through `set` only.
pub struct TrackedMut<T> {
    pub type_id: ElementTypeId,
    pub value: T,
}

impl<T> TrackedMut<T> {
    /// Read access to the wrapped value.  No flag is touched.
    pub fn get(&self) -> (r: &T)
        ensures
            r == self.value,
    {
        &self.value
    }

    /// Grants one mutable access: marks this leaf's type as changed in
    /// `changes`, then stores `value`.  The flag is set whatever `value`
    /// holds, equal to the old value or not.
    pub fn set(&mut self, changes: &mut Changes, value: T)
        requires
            old(changes).wf(),
            old(changes).reserved(old(self).type_id.id),
        ensures
            final(self).type_id == old(self).type_id,
            final(self).value == value,
            final(changes).wf(),
            final(changes).table() == mark(old(changes).table(), old(self).type_id.id),
            forall|x: u64| final(changes).reserved(x) == old(changes).reserved(x),
            forall|x: u64|
                final(changes).flagged(x) == (old(changes).flagged(x) || x == old(
                    self,
                ).type_id.id),
    {
        changes.set_changed(self.type_id);
        self.value = value;
    }

    /// Explicitly marks this leaf's type as changed in `changes`.
    pub fn set_changed(&self, changes: &mut Changes)
        requires
            old(changes).wf(),
            old(changes).reserved(self.type_id.id),
        ensures
            final(changes).wf(),
            final(changes).table() == mark(old(changes).table(), self.type_id.id),
            forall|x: u64| final(changes).reserved(x) == old(changes).reserved(x),
            forall|x: u64|
                final(changes).flagged(x) == (old(changes).flagged(x) || x == self.type_id.id),
    {
        changes.set_changed(self.type_id);
    }

    /// Releases the wrapped value at the end of the pass, so the host can
    /// store it back.
    pub fn into_inner(self) -> (r: T)
        ensures
            r == self.value,
    {
        self.value
    }
}

/// An optional occurrence of a trackable shape.  An absent occurrence still
/// declares the leaf types of its inner shape, so that a registry built for
/// it reserves them.
pub enum Opt<S> {
    /// The inner shape occurred.
    Present(S),
    /// The inner shape did not occur; its declaration is all that is left.
    Absent(Shape),
}

impl<S: Trackable> Trackable for Opt<S> {
    type Projection = Option<<S as Trackable>::Projection>;

    open spec fn type_list(&self) -> Seq<(ElementTypeId, AccessMode)> {
        match self {
            Opt::Present(s) => s.type_list(),
            Opt::Absent(decl) => decl.type_list(),
        }
    }

    open spec fn to_tracked_spec(self) -> Option<<S as Trackable>::Projection> {
        match self {
            Opt::Present(s) => Some(s.to_tracked_spec()),
            Opt::Absent(_) => None,
        }
    }

    fn count_types(&self) -> (n: usize) {
        match self {
            Opt::Present(s) => s.count_types(),
            Opt::Absent(decl) => decl.count_types(),
        }
    }

    fn for_each_type(&self) -> (v: Vec<(ElementTypeId, AccessMode)>) {
        match self {
            Opt::Present(s) => s.for_each_type(),
            Opt::Absent(decl) => decl.leaf_types(),
        }
    }

    fn into_tracked(self) -> (t: Option<<S as Trackable>::Projection>) {
        match self {
            Opt::Present(s) => Some(s.into_tracked()),
            Opt::Absent(_) => None,
        }
    }
}

impl Changes {
    /// Builds a registry for the shape of `value`, reserving one unflagged
    /// cell per distinct leaf type.
    pub fn new_for<V: Trackable>(value: &V) -> (r: Changes)
        ensures
            r.wf(),
            forall|x: u64| r.reserved(x) == list_has_id(value.type_list(), x),
            forall|x: u64| !r.flagged(x),
            forall|k: int| 0 <= k < r.table().len() ==> !(#[trigger] r.table()[k]).1,
            forall|k: int| 0 <= k < r.table().len() ==> exists|j: int| 0 <= j
                < value.type_list().len() && (#[trigger] r.table()[k]).0 == value.type_list()[j].0,
            r.changed_list() == Seq::<ElementTypeId>::empty(),
    {
        let list = value.for_each_type();
        Changes::from_list(list)
    }
}

} // verus!
