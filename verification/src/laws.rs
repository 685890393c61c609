//! The laws the tracking engine obeys, stated and proved once over the
//! specifications of the registry and the projections.

use vstd::prelude::*;

use crate::registry::{
    changed_of, flag_in, lemma_mark_effect, mark, strictly_sorted, Changes, FlagEntry,
};
use crate::shape::Shape;
use crate::trackable::{Opt, Trackable};
use crate::type_id::ElementTypeId;

verus! {

/// Law: no spurious flags.  A registry in which no cell is flagged — as a
/// freshly built one, by the postcondition of `Changes::build_for` and
/// `Changes::new_for` — enumerates no changed identity.
pub proof fn lemma_no_spurious_flags(r: Changes)
    requires
        forall|k: int| 0 <= k < r.table().len() ==> !(#[trigger] r.table()[k]).1,
    ensures
        r.changed_list() == Seq::<ElementTypeId>::empty(),
{
    crate::registry::lemma_changed_of_unflagged(r.table());
}

/// Every identity the changed enumeration holds comes from a flagged row.
proof fn lemma_changed_of_sound(table: Seq<FlagEntry>)
    ensures
        forall|m: int|
            0 <= m < changed_of(table).len() ==> exists|k: int|
                0 <= k < table.len() && table[k] == ((#[trigger] changed_of(table)[m]), true),
    decreases table,
{
    if table.len() > 0 {
        let prefix = table.drop_last();
        lemma_changed_of_sound(prefix);
        let c0 = changed_of(prefix);
        let c = changed_of(table);
        assert forall|m: int| 0 <= m < c.len() implies exists|k: int|
            0 <= k < table.len() && table[k] == ((#[trigger] c[m]), true) by {
            if m < c0.len() {
                let k = choose|k: int| 0 <= k < prefix.len() && prefix[k] == (c0[m], true);
                assert(table[k] == (c[m], true));
            } else {
                assert(table[table.len() - 1] == (c[m], true));
            }
        }
    }
}

/// Every flagged row's identity appears in the changed enumeration.
proof fn lemma_changed_of_complete(table: Seq<FlagEntry>)
    ensures
        forall|k: int|
            0 <= k < table.len() && (#[trigger] table[k]).1 ==> exists|m: int|
                0 <= m < changed_of(table).len() && changed_of(table)[m] == table[k].0,
    decreases table,
{
    if table.len() > 0 {
        let prefix = table.drop_last();
        lemma_changed_of_complete(prefix);
        let c0 = changed_of(prefix);
        let c = changed_of(table);
        assert forall|k: int|
            0 <= k < table.len() && (#[trigger] table[k]).1 implies exists|m: int|
            0 <= m < c.len() && c[m] == table[k].0 by {
            if k < table.len() - 1 {
                assert(prefix[k] == table[k]);
                let m = choose|m: int| 0 <= m < c0.len() && c0[m] == prefix[k].0;
                assert(c[m] == table[k].0);
            } else {
                assert(c[c.len() - 1] == table[k].0);
            }
        }
    }
}

/// Over a strictly ordered table, the changed enumeration's identity codes
/// ascend.
proof fn lemma_changed_of_ordered(table: Seq<FlagEntry>)
    requires
        strictly_sorted(table),
    ensures
        forall|m: int, m2: int|
            0 <= m < m2 < changed_of(table).len() ==> (#[trigger] changed_of(table)[m]).id < (
            #[trigger] changed_of(table)[m2]).id,
    decreases table,
{
    if table.len() > 0 {
        let prefix = table.drop_last();
        assert forall|i: int, j: int| 0 <= i < j < prefix.len() implies (
        #[trigger] prefix[i]).0.id < (#[trigger] prefix[j]).0.id by {
            assert(prefix[i] == table[i] && prefix[j] == table[j]);
        }
        lemma_changed_of_ordered(prefix);
        lemma_changed_of_sound(prefix);
        let c0 = changed_of(prefix);
        let c = changed_of(table);
        let last = table[table.len() - 1];
        assert forall|m: int, m2: int| 0 <= m < m2 < c.len() implies (#[trigger] c[m]).id < (
        #[trigger] c[m2]).id by {
            if m2 < c0.len() {
                assert(c[m] == c0[m] && c[m2] == c0[m2]);
            } else {
                assert(last.1 && m2 == c0.len() && c[m] == c0[m]);
                let k = choose|k: int| 0 <= k < prefix.len() && prefix[k] == (c0[m], true);
                assert(table[k].0.id < last.0.id);
            }
        }
    }
}

/// Law: the changed enumeration is exact and ordered.  Over a well-formed
/// table it holds the identity of every flagged row, nothing else, and its
/// identity codes ascend — the reserved types' total order.
pub proof fn lemma_enumeration_exact(table: Seq<FlagEntry>)
    requires
        strictly_sorted(table),
    ensures
        forall|m: int|
            0 <= m < changed_of(table).len() ==> exists|k: int|
                0 <= k < table.len() && table[k] == ((#[trigger] changed_of(table)[m]), true),
        forall|k: int|
            0 <= k < table.len() && (#[trigger] table[k]).1 ==> exists|m: int|
                0 <= m < changed_of(table).len() && changed_of(table)[m] == table[k].0,
        forall|m: int, m2: int|
            0 <= m < m2 < changed_of(table).len() ==> (#[trigger] changed_of(table)[m]).id < (
            #[trigger] changed_of(table)[m2]).id,
{
    lemma_changed_of_sound(table);
    lemma_changed_of_complete(table);
    lemma_changed_of_ordered(table);
}

/// Law: exact attribution.  Marking the leaf type `a` — as one write
/// through a read-write projection does, by the postcondition of
/// `TrackedMut::set` — flags `a` and leaves every other leaf type `b`
/// exactly as it was.
pub proof fn lemma_exact_attribution(
    before: Changes,
    after: Changes,
    a: ElementTypeId,
    b: ElementTypeId,
)
    requires
        before.reserved(a.id),
        after.table() == mark(before.table(), a.id),
        b.id != a.id,
    ensures
        after.flagged(a.id),
        after.flagged(b.id) == before.flagged(b.id),
        forall|x: u64| after.reserved(x) == before.reserved(x),
{
    lemma_mark_effect(before.table(), a.id);
}

/// Law: optional absence.  Converting an absent optional yields no
/// projection; with no projection there is no operation that could reach a
/// registry, so the inner shape's leaf types stay unflagged however the
/// underlying data is changed outside tracking.
pub proof fn lemma_optional_absence<S: Trackable>(decl: Shape)
    ensures
        (Opt::<S>::Absent(decl)).to_tracked_spec() is None,
{
}

/// Law: sum branch isolation.  For a sum over leaf types `u` (left) and
/// `v` (right), both reserved and untouched: marking through the left
/// branch flags `u` only; marking through the right branch flags `v` only;
/// marking through both flags both.  Which branch a mark can go through is
/// pinned by `to_tracked_spec` on `Or`: a non-engaged branch has no
/// projection.
pub proof fn lemma_sum_branch_isolation(r: Changes, u: ElementTypeId, v: ElementTypeId)
    requires
        r.reserved(u.id),
        r.reserved(v.id),
        u.id != v.id,
        !r.flagged(u.id),
        !r.flagged(v.id),
    ensures
        flag_in(mark(r.table(), u.id), u.id) && !flag_in(mark(r.table(), u.id), v.id),
        flag_in(mark(r.table(), v.id), v.id) && !flag_in(mark(r.table(), v.id), u.id),
        flag_in(mark(mark(r.table(), u.id), v.id), u.id) && flag_in(
            mark(mark(r.table(), u.id), v.id),
            v.id,
        ),
{
    lemma_mark_effect(r.table(), u.id);
    lemma_mark_effect(r.table(), v.id);
    lemma_mark_effect(mark(r.table(), u.id), v.id);
}

/// Law: shared-type collapse.  In a well-formed registry — as any built
/// one, rows strictly ordered by identity code — a reserved leaf type `w`
/// has exactly one flag cell, however many positions of the built-for
/// shape mention `w`; marking through any of those positions marks the
/// same code `w`, so it sets that single cell.
pub proof fn lemma_shared_type_collapse(r: Changes, w: u64)
    requires
        r.wf(),
        r.reserved(w),
    ensures
        exists|i: int|
            {
                &&& 0 <= i < r.table().len()
                &&& (#[trigger] r.table()[i]).0.id == w
                &&& forall|j: int|
                    0 <= j < r.table().len() && (#[trigger] r.table()[j]).0.id == w ==> j == i
            },
{
    let i = choose|i: int| 0 <= i < r.table().len() && (#[trigger] r.table()[i]).0.id == w;
    assert forall|j: int|
        0 <= j < r.table().len() && (#[trigger] r.table()[j]).0.id == w implies j == i by {
        if j < i {
            assert(r.table()[j].0.id < r.table()[i].0.id);
        } else if j > i {
            assert(r.table()[i].0.id < r.table()[j].0.id);
        }
    }
    assert({
        &&& 0 <= i < r.table().len()
        &&& r.table()[i].0.id == w
        &&& forall|j: int|
            0 <= j < r.table().len() && (#[trigger] r.table()[j]).0.id == w ==> j == i
    });
}

} // verus!
