//! The query adaptor: a tracked view of a borrowed query iteration.
//!
//! The host query engine yields, per matched record, a handle and a raw
//! composite value conforming to the declared shape.  The adaptor converts
//! each yielded pair into (handle, tracked projection), one for one and in
//! order; conversion touches no flag, and the registry stays valid and
//! queryable after the iteration is exhausted.

use vstd::prelude::*;

use crate::trackable::Trackable;

verus! {

/// The host's opaque record handle, carried through untouched.
pub type RecordHandle = u64;

/// A shape that can head a tracked query pass: any trackable value the
/// host query yields.
pub trait TrackableQuery: Trackable {
}

impl<V: Trackable> TrackableQuery for V {
}

/// A borrowed query iteration taken over for tracking: the pairs the host
/// query yielded, in match order, each still raw.
pub struct TrackedQueryBorrow<V> {
    items: Vec<(RecordHandle, V)>,
}

impl<V: Trackable> TrackedQueryBorrow<V> {
    /// The yielded pairs this adaptor still holds, in match order.
    pub closed spec fn source(self) -> Seq<(RecordHandle, V)> {
        self.items@
    }

    /// Binds the adaptor to the pairs a host query pass yielded.  No flag
    /// is touched at construction.
    pub fn new(items: Vec<(RecordHandle, V)>) -> (r: TrackedQueryBorrow<V>)
        ensures
            r.source() == items@,
    {
        TrackedQueryBorrow { items }
    }

    /// Starts the tracked iteration, handing the held pairs over to the
    /// iterator; the adaptor is left empty.
    pub fn iter(&mut self) -> (it: TrackedQueryIter<V>)
        ensures
            it.remaining() == old(self).source(),
            final(self).source() == Seq::<(RecordHandle, V)>::empty(),
    {
        let mut taken: Vec<(RecordHandle, V)> = Vec::new();
        core::mem::swap(&mut taken, &mut self.items);
        proof {
            assert(self.items@ =~= Seq::<(RecordHandle, V)>::empty());
        }
        TrackedQueryIter { items: taken }
    }
}

/// The tracked iteration: yields (handle, tracked projection) pairs, one
/// per yielded record, in match order.
pub struct TrackedQueryIter<V> {
    items: Vec<(RecordHandle, V)>,
}

impl<V: Trackable> TrackedQueryIter<V> {
    /// The pairs not yet yielded, in match order.
    pub closed spec fn remaining(self) -> Seq<(RecordHandle, V)> {
        self.items@
    }

    /// Yields the next record's handle and the tracked projection of its
    /// raw value, or nothing once the iteration is exhausted.  Conversion
    /// touches no flag.
    pub fn next(&mut self) -> (r: Option<(RecordHandle, <V as Trackable>::Projection)>)
        ensures
            old(self).remaining().len() == 0 ==> r is None && final(self).remaining() == old(
                self,
            ).remaining(),
            old(self).remaining().len() > 0 ==> {
                &&& final(self).remaining() == old(self).remaining().drop_first()
                &&& r == Some(
                    (
                        old(self).remaining()[0].0,
                        old(self).remaining()[0].1.to_tracked_spec(),
                    ),
                )
            },
    {
        if self.items.len() == 0 {
            None
        } else {
            let (handle, value) = self.items.remove(0);
            proof {
                assert(self.items@ =~= old(self).remaining().drop_first());
            }
            Some((handle, value.into_tracked()))
        }
    }

    /// How many records are left to yield: the transformation is one to
    /// one, so this equals what is left of the wrapped iteration.
    pub fn len(&self) -> (n: usize)
        ensures
            n == self.remaining().len(),
    {
        self.items.len()
    }

    /// Lower and upper bound on the records left to yield; both are exact.
    pub fn size_hint(&self) -> (r: (usize, Option<usize>))
        ensures
            r.0 == self.remaining().len(),
            r.1 == Some(self.remaining().len() as usize),
    {
        (self.items.len(), Some(self.items.len()))
    }
}

} // verus!
