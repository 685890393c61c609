//! The change registry: one dirty flag per distinct leaf type.
//!
//! A registry is built once for a declared shape, reserving one flag cell
//! per distinct leaf type (duplicates in the shape collapse onto a single
//! cell).  Marking a reserved type sets its flag; flags are monotonic for
//! the registry's lifetime, and enumeration visits flagged types in the
//! total order of their identities.  Registries are rebuilt per pass rather
//! than reset.

use vstd::prelude::*;

use crate::shape::{AccessMode, Shape};
use crate::type_id::ElementTypeId;

verus! {

/// One row of a registry's table: a reserved identity and its dirty flag.
pub type FlagEntry = (ElementTypeId, bool);

/// Whether the rows are strictly ordered by identity code (so each code
/// appears at most once).
pub open spec fn strictly_sorted(table: Seq<FlagEntry>) -> bool {
    forall|i: int, j: int| 0 <= i < j < table.len() ==> #[trigger] table[i].0.id < #[trigger] table[j].0.id
}

/// Whether some row is reserved for the identity code `id`.
pub open spec fn has_id(table: Seq<FlagEntry>, id: u64) -> bool {
    exists|i: int| 0 <= i < table.len() && #[trigger] table[i].0.id == id
}

/// Whether the row reserved for the identity code `id` is flagged.
pub open spec fn flag_in(table: Seq<FlagEntry>, id: u64) -> bool {
    exists|i: int| 0 <= i < table.len() && #[trigger] table[i].0.id == id && table[i].1
}

/// The table with the row of the identity code `id` flagged, and every other
/// row unchanged.
pub open spec fn mark(table: Seq<FlagEntry>, id: u64) -> Seq<FlagEntry> {
    table.map_values(|p: FlagEntry| if p.0.id == id { (p.0, true) } else { p })
}

/// The identities of the flagged rows, in table order.
pub open spec fn changed_of(table: Seq<FlagEntry>) -> Seq<ElementTypeId>
    decreases table,
{
    if table.len() == 0 {
        Seq::empty()
    } else {
        let rest = changed_of(table.drop_last());
        if table.last().1 {
            rest.push(table.last().0)
        } else {
            rest
        }
    }
}

/// Marking affects exactly the rows that carry the marked identity code:
/// their flags are set, every other row is untouched, and no row is added
/// or removed.
pub proof fn lemma_mark_effect(table: Seq<FlagEntry>, id: u64)
    ensures
        strictly_sorted(table) ==> strictly_sorted(mark(table, id)),
        forall|x: u64| has_id(mark(table, id), x) == has_id(table, x),
        has_id(table, id) ==> flag_in(mark(table, id), id),
        forall|x: u64| x != id ==> flag_in(mark(table, id), x) == flag_in(table, x),
        !has_id(table, id) ==> mark(table, id) == table,
{
    let after = mark(table, id);
    assert(after.len() == table.len());
    assert forall|k: int| 0 <= k < after.len() implies #[trigger] after[k].0 == table[k].0
        && after[k].1 == (table[k].1 || table[k].0.id == id) by {}
    assert forall|x: u64| has_id(after, x) == has_id(table, x) by {
        if has_id(after, x) {
            let k = choose|k: int| 0 <= k < after.len() && #[trigger] after[k].0.id == x;
            assert(table[k].0.id == x);
        }
        if has_id(table, x) {
            let k = choose|k: int| 0 <= k < table.len() && #[trigger] table[k].0.id == x;
            assert(after[k].0.id == x);
        }
    }
    if has_id(table, id) {
        let k = choose|k: int| 0 <= k < table.len() && #[trigger] table[k].0.id == id;
        assert(after[k].0.id == id && after[k].1);
    }
    assert forall|x: u64| x != id implies flag_in(after, x) == flag_in(table, x) by {
        if flag_in(after, x) {
            let k = choose|k: int| 0 <= k < after.len() && #[trigger] after[k].0.id == x
                && after[k].1;
            assert(table[k].0.id == x && table[k].1);
        }
        if flag_in(table, x) {
            let k = choose|k: int| 0 <= k < table.len() && #[trigger] table[k].0.id == x
                && table[k].1;
            assert(after[k].0.id == x && after[k].1);
        }
    }
    if !has_id(table, id) {
        assert forall|k: int| 0 <= k < table.len() implies #[trigger] after[k] == table[k] by {
            assert(table[k].0.id != id);
        }
        assert(after =~= table);
    }
}

/// A table with no flagged row enumerates no changed identity.
pub proof fn lemma_changed_of_unflagged(table: Seq<FlagEntry>)
    requires
        forall|k: int| 0 <= k < table.len() ==> !(#[trigger] table[k]).1,
    ensures
        changed_of(table) == Seq::<ElementTypeId>::empty(),
    decreases table,
{
    if table.len() > 0 {
        lemma_changed_of_unflagged(table.drop_last());
    }
}

/// The change registry: a dirty flag per distinct reserved leaf type, kept
/// in ascending order of identity code.
pub struct Changes {
    entries: Vec<FlagEntry>,
}

impl Changes {
    /// The registry's table: reserved identities with their flags, in
    /// ascending order of identity code.
    pub closed spec fn table(self) -> Seq<FlagEntry> {
        self.entries@
    }

    /// Well-formedness: the table is strictly ordered by identity code.
    pub open spec fn wf(self) -> bool {
        strictly_sorted(self.table())
    }

    /// Whether a flag cell is reserved for the identity code `id`.
    pub open spec fn reserved(self, id: u64) -> bool {
        has_id(self.table(), id)
    }

    /// Whether the flag cell of the identity code `id` is set.
    pub open spec fn flagged(self, id: u64) -> bool {
        flag_in(self.table(), id)
    }

    /// The identities of the flagged cells, in ascending order of code.
    pub open spec fn changed_list(self) -> Seq<ElementTypeId> {
        changed_of(self.table())
    }

    /// An empty registry: nothing reserved, nothing flagged.
    pub fn new() -> (r: Changes)
        ensures
            r.wf(),
            r.table() == Seq::<FlagEntry>::empty(),
    {
        Changes { entries: Vec::new() }
    }

    /// The index of the row reserved for `id`, if any.
    fn find(&self, id: u64) -> (r: Option<usize>)
        ensures
            match r {
                Some(i) => i < self.table().len() && self.table()[i as int].0.id == id,
                None => !has_id(self.table(), id),
            },
    {
        let mut i: usize = 0;
        while i < self.entries.len()
            invariant
                i <= self.entries.len(),
                forall|j: int| 0 <= j < i ==> #[trigger] self.entries@[j].0.id != id,
            decreases self.entries.len() - i,
        {
            if self.entries[i].0.id == id {
                return Some(i);
            }
            i += 1;
        }
        None
    }

    /// Reserves a flag cell for `type_id`.  Reservation is idempotent: a
    /// second reservation of an already-known identity leaves the registry
    /// unchanged, flags included.
    #[verifier::rlimit(30)]
    pub fn reserve(&mut self, type_id: ElementTypeId)
        requires
            old(self).wf(),
        ensures
            final(self).wf(),
            forall|x: u64| final(self).reserved(x) == (old(self).reserved(x) || x == type_id.id),
            forall|x: u64| final(self).flagged(x) == old(self).flagged(x),
            old(self).reserved(type_id.id) ==> final(self).table() == old(self).table(),
            !old(self).reserved(type_id.id) ==> final(self).table().contains((type_id, false)),
            forall|k: int| 0 <= k < final(self).table().len() ==> (old(self).table().contains(
                #[trigger] final(self).table()[k],
            ) || final(self).table()[k] == (type_id, false)),
            forall|k: int| 0 <= k < old(self).table().len() ==> final(self).table().contains(
                #[trigger] old(self).table()[k],
            ),
    {
        let mut p: usize = 0;
        while p < self.entries.len() && self.entries[p].0.id < type_id.id
            invariant
                p <= self.entries.len(),
                forall|j: int| 0 <= j < p ==> #[trigger] self.entries@[j].0.id < type_id.id,
            decreases self.entries.len() - p,
        {
            p += 1;
        }
        if p < self.entries.len() && self.entries[p].0.id == type_id.id {
            proof {
                assert(self.table()[p as int].0.id == type_id.id);
            }
            return;
        }
        proof {
            assert(forall|j: int| p <= j < self.entries@.len()
                ==> #[trigger] self.entries@[j].0.id > type_id.id) by {
                assert forall|j: int| p <= j < self.entries@.len()
                    implies #[trigger] self.entries@[j].0.id > type_id.id by {
                    if j > p {
                        assert(self.entries@[p as int].0.id < self.entries@[j].0.id);
                    }
                }
            }
            assert(!has_id(self.entries@, type_id.id));
        }
        let ghost before = self.entries@;
        self.entries.insert(p, (type_id, false));
        proof {
            let after = self.entries@;
            assert forall|i: int, j: int| 0 <= i < j < after.len() implies after[i].0.id
                < after[j].0.id by {
                if j < p {
                    assert(after[i] == before[i] && after[j] == before[j]);
                } else if i > p {
                    assert(after[i] == before[i - 1] && after[j] == before[j - 1]);
                } else if i < p && j == p {
                    assert(after[i] == before[i]);
                } else if i == p && j > p {
                    assert(after[j] == before[j - 1]);
                } else if i < p && j > p {
                    assert(after[i] == before[i] && after[j] == before[j - 1]);
                }
            }
            assert(after[p as int] == (type_id, false));
            assert forall|k: int| 0 <= k < after.len() implies (before.contains(#[trigger] after[k])
                || after[k] == (type_id, false)) by {
                if k < p {
                    assert(after[k] == before[k]);
                    assert(before.contains(before[k]));
                } else if k > p {
                    assert(after[k] == before[k - 1]);
                    assert(before.contains(before[k - 1]));
                }
            }
            assert forall|k: int| 0 <= k < before.len() implies after.contains(
                #[trigger] before[k],
            ) by {
                if k < p {
                    assert(after[k] == before[k]);
                } else {
                    assert(after[k + 1] == before[k]);
                }
            }
            assert forall|x: u64| has_id(after, x) == (has_id(before, x) || x == type_id.id) by {
                if has_id(after, x) {
                    let i = choose|i: int| 0 <= i < after.len() && #[trigger] after[i].0.id == x;
                    if i != p {
                        let i0: int = if i < p { i } else { i - 1 };
                        assert(before[i0].0.id == x);
                    }
                }
                if has_id(before, x) {
                    let i = choose|i: int| 0 <= i < before.len() && #[trigger] before[i].0.id == x;
                    let i1: int = if i < p { i } else { i + 1 };
                    assert(after[i1].0.id == x);
                }
                if x == type_id.id {
                    assert(after[p as int].0.id == x);
                }
            }
            assert forall|x: u64| flag_in(after, x) == flag_in(before, x) by {
                if flag_in(after, x) {
                    let i = choose|i: int| 0 <= i < after.len() && #[trigger] after[i].0.id == x
                        && after[i].1;
                    if i < p {
                        assert(before[i].0.id == x && before[i].1);
                    } else if i > p {
                        assert(before[i - 1].0.id == x && before[i - 1].1);
                    }
                }
                if flag_in(before, x) {
                    let i = choose|i: int| 0 <= i < before.len() && #[trigger] before[i].0.id == x
                        && before[i].1;
                    let i1: int = if i < p { i } else { i + 1 };
                    assert(after[i1].0.id == x && after[i1].1);
                }
            }
        }
    }

    /// Marks the leaf type of `type_id` as changed.  The type must have been
    /// reserved when the registry was built: marking an unreserved type is a
    /// shape/registry mismatch, a construction-time error this library rules
    /// out by precondition (unverified callers hit a runtime panic instead).
    pub fn set_changed(&mut self, type_id: ElementTypeId)
        requires
            old(self).wf(),
            old(self).reserved(type_id.id),
        ensures
            final(self).wf(),
            final(self).table() == mark(old(self).table(), type_id.id),
            forall|x: u64| final(self).reserved(x) == old(self).reserved(x),
            forall|x: u64| final(self).flagged(x) == (old(self).flagged(x) || x == type_id.id),
    {
        let i = self.find(type_id.id).unwrap();
        let stored = self.entries[i].0;
        let ghost before = self.entries@;
        self.entries[i] = (stored, true);
        proof {
            let after = self.entries@;
            assert forall|k: int| 0 <= k < after.len() implies after[k] == (if before[k].0.id
                == type_id.id {
                (before[k].0, true)
            } else {
                before[k]
            }) by {
                if k != i && before[k].0.id == type_id.id {
                    if k < i {
                        assert(before[k].0.id < before[i as int].0.id);
                    } else {
                        assert(before[i as int].0.id < before[k].0.id);
                    }
                }
            }
            assert(after =~= mark(before, type_id.id));
            assert forall|x: u64| has_id(after, x) == has_id(before, x) by {
                assert forall|k: int| 0 <= k < after.len() implies after[k].0 == before[k].0 by {}
                if has_id(after, x) {
                    let k = choose|k: int| 0 <= k < after.len() && #[trigger] after[k].0.id == x;
                    assert(before[k].0.id == x);
                }
                if has_id(before, x) {
                    let k = choose|k: int| 0 <= k < before.len() && #[trigger] before[k].0.id == x;
                    assert(after[k].0.id == x);
                }
            }
            assert forall|x: u64| flag_in(after, x) == (flag_in(before, x) || x == type_id.id) by {
                if flag_in(after, x) && x != type_id.id {
                    let k = choose|k: int| 0 <= k < after.len() && #[trigger] after[k].0.id == x
                        && after[k].1;
                    assert(before[k].0.id == x && before[k].1);
                }
                if flag_in(before, x) {
                    let k = choose|k: int| 0 <= k < before.len() && #[trigger] before[k].0.id == x
                        && before[k].1;
                    assert(after[k].0.id == x && after[k].1);
                }
                if x == type_id.id {
                    assert(after[i as int].0.id == x && after[i as int].1);
                }
            }
        }
    }

    /// Whether a flag cell was reserved for the leaf type of `type_id` when
    /// the registry was built.  Marking is owed exactly to reserved types,
    /// so callers outside the library can test this before they mark.
    pub fn is_reserved(&self, type_id: ElementTypeId) -> (r: bool)
        ensures
            r == self.reserved(type_id.id),
    {
        self.find(type_id.id).is_some()
    }

    /// Whether the leaf type of `type_id` was marked since the registry was
    /// built.  An unreserved type reads as unchanged; lookups are not errors
    /// for reads, only for writes.
    pub fn is_changed(&self, type_id: ElementTypeId) -> (r: bool)
        requires
            self.wf(),
        ensures
            r == self.flagged(type_id.id),
    {
        match self.find(type_id.id) {
            Some(i) => {
                let r = self.entries[i].1;
                proof {
                    if !r && self.flagged(type_id.id) {
                        let k = choose|k: int| 0 <= k < self.table().len()
                            && #[trigger] self.table()[k].0.id == type_id.id && self.table()[k].1;
                        if k < i {
                            assert(self.table()[k].0.id < self.table()[i as int].0.id);
                        } else if k > i {
                            assert(self.table()[i as int].0.id < self.table()[k].0.id);
                        }
                    }
                }
                r
            },
            None => false,
        }
    }

    /// Enumerates the identities of every leaf type marked since the
    /// registry was built, in ascending order of identity code.  The
    /// traversal is restartable and does not mutate the registry.
    pub fn for_each_changed(&self) -> (r: Vec<ElementTypeId>)
        ensures
            r@ == self.changed_list(),
    {
        let mut r: Vec<ElementTypeId> = Vec::new();
        let mut i: usize = 0;
        while i < self.entries.len()
            invariant
                i <= self.entries.len(),
                r@ == changed_of(self.entries@.subrange(0, i as int)),
            decreases self.entries.len() - i,
        {
            let ghost prefix = self.entries@.subrange(0, i as int);
            let ghost next = self.entries@.subrange(0, i + 1);
            if self.entries[i].1 {
                r.push(self.entries[i].0);
            }
            proof {
                assert(next.drop_last() =~= prefix);
                assert(next.last() == self.entries@[i as int]);
            }
            i += 1;
        }
        proof {
            assert(self.entries@.subrange(0, self.entries@.len() as int) =~= self.entries@);
        }
        r
    }

    /// Builds a registry for a declared shape, reserving one unflagged cell
    /// per distinct leaf type the shape mentions.
    pub fn build_for(shape: &Shape) -> (r: Changes)
        ensures
            r.wf(),
            forall|x: u64| r.reserved(x) == list_has_id(shape.type_list(), x),
            forall|x: u64| !r.flagged(x),
            forall|k: int| 0 <= k < r.table().len() ==> !(#[trigger] r.table()[k]).1,
            forall|k: int| 0 <= k < r.table().len() ==> exists|j: int| 0 <= j
                < shape.type_list().len() && (#[trigger] r.table()[k]).0 == shape.type_list()[j].0,
            r.changed_list() == Seq::<ElementTypeId>::empty(),
    {
        let list = shape.leaf_types();
        Changes::from_list(list)
    }

    /// Builds a registry from an enumerated leaf-type list, reserving one
    /// unflagged cell per distinct identity code in it.
    pub(crate) fn from_list(list: Vec<(ElementTypeId, AccessMode)>) -> (r: Changes)
        ensures
            r.wf(),
            forall|x: u64| r.reserved(x) == list_has_id(list@, x),
            forall|x: u64| !r.flagged(x),
            forall|k: int| 0 <= k < r.table().len() ==> !(#[trigger] r.table()[k]).1,
            forall|k: int| 0 <= k < r.table().len() ==> exists|j: int| 0 <= j < list@.len() && (
            #[trigger] r.table()[k]).0 == list@[j].0,
            r.changed_list() == Seq::<ElementTypeId>::empty(),
    {
        let mut r = Changes::new();
        let mut i: usize = 0;
        while i < list.len()
            invariant
                i <= list.len(),
                r.wf(),
                forall|x: u64| r.reserved(x) == list_has_id(list@.subrange(0, i as int), x),
                forall|k: int| 0 <= k < r.table().len() ==> !(#[trigger] r.table()[k]).1,
                forall|k: int| 0 <= k < r.table().len() ==> exists|j: int| 0 <= j < list@.len()
                    && (#[trigger] r.table()[k]).0 == list@[j].0,
            decreases list.len() - i,
        {
            let ghost before = r;
            r.reserve(list[i].0);
            proof {
                let prefix = list@.subrange(0, i as int);
                let next = list@.subrange(0, i + 1);
                assert forall|x: u64| r.reserved(x) == list_has_id(next, x) by {
                    if r.reserved(x) {
                        if before.reserved(x) {
                            let j = choose|j: int| 0 <= j < prefix.len()
                                && #[trigger] prefix[j].0.id == x;
                            assert(next[j].0.id == x);
                        } else {
                            assert(next[i as int].0.id == x);
                        }
                    }
                    if list_has_id(next, x) {
                        let j = choose|j: int| 0 <= j < next.len() && #[trigger] next[j].0.id == x;
                        if j < i {
                            assert(prefix[j].0.id == x);
                        }
                    }
                }
                assert forall|k: int| 0 <= k < r.table().len() implies !(
                #[trigger] r.table()[k]).1 by {
                    if r.table()[k] != (list@[i as int].0, false) {
                        assert(before.table().contains(r.table()[k]));
                        let k0 = choose|k0: int| 0 <= k0 < before.table().len()
                            && before.table()[k0] == r.table()[k];
                    }
                }
                assert forall|k: int| 0 <= k < r.table().len() implies exists|j: int| 0 <= j
                    < list@.len() && (#[trigger] r.table()[k]).0 == list@[j].0 by {
                    if r.table()[k] == (list@[i as int].0, false) {
                        assert(r.table()[k].0 == list@[i as int].0);
                    } else {
                        assert(before.table().contains(r.table()[k]));
                        let k0 = choose|k0: int| 0 <= k0 < before.table().len()
                            && before.table()[k0] == r.table()[k];
                    }
                }
            }
            i += 1;
        }
        proof {
            assert(list@.subrange(0, list@.len() as int) =~= list@);
            assert forall|x: u64| !r.flagged(x) by {
                if r.flagged(x) {
                    let k = choose|k: int| 0 <= k < r.table().len()
                        && #[trigger] r.table()[k].0.id == x && r.table()[k].1;
                }
            }
            lemma_changed_of_unflagged(r.table());
        }
        r
    }
}

/// Whether some pair in a leaf-type list carries the identity code `id`.
pub open spec fn list_has_id(list: Seq<(ElementTypeId, AccessMode)>, id: u64) -> bool {
    exists|j: int| 0 <= j < list.len() && #[trigger] list[j].0.id == id
}

} // verus!
