//! Identity descriptors for leaf component types.

use vstd::prelude::*;

verus! {

/// Identifies one leaf component type.
///
/// Identities are created by an explicit registration scheme: the client
/// assigns each leaf type a stable numeric code and a display name.  Equality
/// and ordering go by the code alone; the name is carried only for
/// diagnostics.
#[derive(Debug, Clone, Copy, Hash)]
pub struct ElementTypeId {
    /// Stable numeric code of the leaf type; the identity proper.
    pub id: u64,
    /// Human-readable name of the leaf type, for diagnostics only.
    pub name: &'static str,
}

impl ElementTypeId {
    /// The identity of the leaf type registered under `id`, displayed as `name`.
    ///
    /// Two calls with the same code always yield identities that compare
    /// equal; calls with distinct codes yield identities that never do.
    pub fn of(id: u64, name: &'static str) -> (r: ElementTypeId)
        ensures
            r.id == id,
            r.name == name,
    {
        ElementTypeId { id, name }
    }

    /// The numeric code of this identity.
    pub fn id(&self) -> (r: u64)
        ensures
            r == self.id,
    {
        self.id
    }

    /// The diagnostic name of this identity.
    pub fn name(&self) -> (r: &'static str)
        ensures
            r == self.name,
    {
        self.name
    }
}

impl PartialEq for ElementTypeId {
    fn eq(&self, other: &ElementTypeId) -> (r: bool) {
        self.id == other.id
    }
}

impl vstd::std_specs::cmp::PartialEqSpecImpl for ElementTypeId {
    open spec fn obeys_eq_spec() -> bool {
        true
    }

    open spec fn eq_spec(&self, other: &ElementTypeId) -> bool {
        self.id == other.id
    }
}

impl PartialOrd for ElementTypeId {
    fn partial_cmp(&self, other: &ElementTypeId) -> (r: Option<core::cmp::Ordering>) {
        if self.id < other.id {
            Some(core::cmp::Ordering::Less)
        } else if self.id == other.id {
            Some(core::cmp::Ordering::Equal)
        } else {
            Some(core::cmp::Ordering::Greater)
        }
    }
}

impl vstd::std_specs::cmp::PartialOrdSpecImpl for ElementTypeId {
    open spec fn obeys_partial_cmp_spec() -> bool {
        true
    }

    open spec fn partial_cmp_spec(&self, other: &ElementTypeId) -> Option<core::cmp::Ordering> {
        if self.id < other.id {
            Some(core::cmp::Ordering::Less)
        } else if self.id == other.id {
            Some(core::cmp::Ordering::Equal)
        } else {
            Some(core::cmp::Ordering::Greater)
        }
    }
}

/// The identity descriptor under its query-facing name.
pub type TypeInfo = ElementTypeId;

} // verus!
