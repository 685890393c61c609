use change_tracking::registry::Changes;
use change_tracking::shape::{AccessMode, Shape};
use change_tracking::trackable::{Opt, ReadLeaf, Trackable, WriteLeaf};
use change_tracking::type_id::ElementTypeId;

fn id_bool() -> ElementTypeId {
    ElementTypeId::of(1, "bool")
}

fn id_u32() -> ElementTypeId {
    ElementTypeId::of(2, "u32")
}

fn id_f32() -> ElementTypeId {
    ElementTypeId::of(3, "f32")
}

fn id_f64() -> ElementTypeId {
    ElementTypeId::of(4, "f64")
}

#[test]
fn tracked_tuple_metadata() {
    let query_value: (
        Opt<WriteLeaf<bool>>,
        WriteLeaf<u32>,
        (ReadLeaf<f32>, ReadLeaf<f64>),
    ) = (
        Opt::Absent(Shape::Leaf(id_bool(), AccessMode::ReadWrite)),
        WriteLeaf::new(id_u32(), 0u32),
        (ReadLeaf::new(id_f32(), 0f32), ReadLeaf::new(id_f64(), 0f64)),
    );

    assert_eq!(query_value.count_types(), 4);

    let mut all_types = query_value.for_each_type();
    all_types.sort_by_key(|(t, _)| t.id());
    let mut expected_types = [
        (id_bool(), AccessMode::ReadWrite),
        (id_u32(), AccessMode::ReadWrite),
        (id_f32(), AccessMode::ReadOnly),
        (id_f64(), AccessMode::ReadOnly),
    ];
    expected_types.sort_by_key(|(t, _)| t.id());
    assert_eq!(all_types.as_slice(), &expected_types);
}

#[test]
fn tracked_tuple() {
    let value = (Some(false), 0u32);
    let reference = (
        match value.0 {
            Some(b) => Opt::Present(WriteLeaf::new(id_bool(), b)),
            None => Opt::Absent(Shape::Leaf(id_bool(), AccessMode::ReadWrite)),
        },
        WriteLeaf::new(id_u32(), value.1),
    );

    let mut changes = Changes::new_for(&reference);
    let projection = reference.into_tracked();

    let (mut a, mut b) = projection;
    match a.as_ref() {
        None => unreachable!("a is None"),
        Some(a) => assert_eq!(*a.get(), false),
    }
    assert_eq!(*b.get(), 0);

    let mut changed_types = vec![];
    for t in changes.for_each_changed() {
        changed_types.push(t);
    }
    assert!(changed_types.is_empty());

    b.set(&mut changes, 1);
    for t in changes.for_each_changed() {
        changed_types.push(t);
    }
    assert_eq!(changed_types.as_slice(), &[id_u32()]);

    if let Some(a) = a.as_mut() {
        a.set(&mut changes, true);
    }
    let mut changed_types = vec![];
    for t in changes.for_each_changed() {
        changed_types.push(t);
    }
    let expected_changed_types = &mut [id_u32(), id_bool()];
    changed_types.sort_by_key(|t| t.id());
    expected_changed_types.sort_by_key(|t| t.id());
    assert_eq!(changed_types.as_slice(), expected_changed_types);

    let value = (a.map(|t| t.into_inner()), b.into_inner());
    assert_eq!(value, (Some(true), 1u32));
}
