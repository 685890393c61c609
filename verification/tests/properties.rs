use change_tracking::registry::Changes;
use change_tracking::shape::{AccessMode, Shape};
use change_tracking::trackable::{Opt, ReadLeaf, Trackable, WriteLeaf};
use change_tracking::type_id::ElementTypeId;

fn id_a() -> ElementTypeId {
    ElementTypeId::of(1, "A")
}

fn id_b() -> ElementTypeId {
    ElementTypeId::of(2, "B")
}

#[test]
fn it_works() {
    let result = 2 + 2;
    assert_eq!(result, 4);
}

#[test]
fn no_spurious_flags_after_build() {
    let shape = Shape::Sequence(vec![
        Shape::Leaf(id_a(), AccessMode::ReadWrite),
        Shape::Leaf(id_b(), AccessMode::ReadOnly),
        Shape::Optional(Box::new(Shape::Leaf(id_a(), AccessMode::ReadOnly))),
    ]);
    let changes = Changes::build_for(&shape);
    assert!(changes.for_each_changed().is_empty());
    assert!(!changes.is_changed(id_a()));
    assert!(!changes.is_changed(id_b()));
}

#[test]
fn exact_attribution_in_a_sequence() {
    let raw = (
        WriteLeaf::new(id_a(), 5u32),
        ReadLeaf::new(id_b(), 7i32),
    );
    let mut changes = Changes::new_for(&raw);
    let (mut a, b) = raw.into_tracked();

    a.set(&mut changes, 6);

    assert!(changes.is_changed(id_a()));
    assert!(!changes.is_changed(id_b()));
    assert_eq!(changes.for_each_changed().as_slice(), &[id_a()]);
    assert_eq!(*b.get(), 7);
}

#[test]
fn read_transparency() {
    let raw = (
        WriteLeaf::new(id_a(), 5u32),
        ReadLeaf::new(id_b(), 7i32),
    );
    let changes = Changes::new_for(&raw);
    let (a, b) = raw.into_tracked();

    assert_eq!(*a.get(), 5);
    assert_eq!(*b.get(), 7);
    assert_eq!(*a.get(), 5);

    assert!(changes.for_each_changed().is_empty());
    assert!(!changes.is_changed(id_a()));
    assert!(!changes.is_changed(id_b()));
}

#[test]
fn write_barrier_flags_without_a_new_value() {
    let raw = WriteLeaf::new(id_a(), 5u32);
    let mut changes = Changes::new_for(&raw);
    let mut projection = raw.into_tracked();

    // Store the value already held: the flag is raised all the same.
    projection.set(&mut changes, 5);

    assert_eq!(*projection.get(), 5);
    assert!(changes.is_changed(id_a()));
    assert_eq!(changes.for_each_changed().as_slice(), &[id_a()]);
}

#[test]
fn optional_absence_leaves_the_type_unflagged() {
    // One registry shared by an absent optional of A and a writable B.
    let raw = (
        Opt::<WriteLeaf<u32>>::Absent(Shape::Leaf(id_a(), AccessMode::ReadWrite)),
        WriteLeaf::new(id_b(), 1u32),
    );
    let mut changes = Changes::new_for(&raw);
    let (a, mut b) = raw.into_tracked();

    // Absence yields no projection at all.
    assert!(a.is_none());

    // Mutation elsewhere through the other slot of the shape flags only B;
    // a raw value of A's type changed outside tracking flags nothing.
    let mut untracked_a: u32 = 0;
    untracked_a += 3;
    assert_eq!(untracked_a, 3);
    b.set(&mut changes, 2);

    assert!(!changes.is_changed(id_a()));
    assert_eq!(changes.for_each_changed().as_slice(), &[id_b()]);
}

#[test]
fn shared_type_collapses_to_one_cell() {
    // Two positions of the same leaf type: one flag cell for both.
    let raw = (
        WriteLeaf::new(id_a(), 1u32),
        WriteLeaf::new(id_a(), 2u32),
    );
    let mut changes = Changes::new_for(&raw);
    let (mut first, mut second) = raw.into_tracked();

    first.set(&mut changes, 10);
    assert_eq!(changes.for_each_changed().as_slice(), &[id_a()]);

    second.set(&mut changes, 20);
    assert_eq!(changes.for_each_changed().as_slice(), &[id_a()]);

    // A fresh registry, marked through the second position only, sets the
    // same single cell.
    let raw = (
        WriteLeaf::new(id_a(), 1u32),
        WriteLeaf::new(id_a(), 2u32),
    );
    let mut changes = Changes::new_for(&raw);
    let (_, mut second) = raw.into_tracked();
    second.set(&mut changes, 20);
    assert_eq!(changes.for_each_changed().as_slice(), &[id_a()]);
}

#[test]
fn empty_sequence_declares_nothing() {
    let shape = Shape::Sequence(vec![]);
    assert_eq!(shape.count_types(), 0);
    let changes = Changes::build_for(&shape);
    assert!(changes.for_each_changed().is_empty());
}

#[test]
fn unreserved_reads_as_unchanged() {
    let raw = WriteLeaf::new(id_a(), 5u32);
    let mut changes = Changes::new_for(&raw);
    let mut projection = raw.into_tracked();
    projection.set(&mut changes, 6);

    assert!(changes.is_changed(id_a()));
    assert!(!changes.is_changed(id_b()));
}

#[test]
fn enumeration_is_restartable_and_ordered() {
    let raw = (
        WriteLeaf::new(id_b(), 1u32),
        WriteLeaf::new(id_a(), 2u32),
    );
    let mut changes = Changes::new_for(&raw);
    let (mut first, mut second) = raw.into_tracked();
    second.set(&mut changes, 3);
    first.set(&mut changes, 4);

    // Ascending identity order, whatever the marking order was.
    assert_eq!(changes.for_each_changed().as_slice(), &[id_a(), id_b()]);
    // Re-invocable, with the same outcome.
    assert_eq!(changes.for_each_changed().as_slice(), &[id_a(), id_b()]);
}
