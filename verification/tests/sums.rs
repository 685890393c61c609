use change_tracking::registry::Changes;
use change_tracking::shape::{AccessMode, Shape};
use change_tracking::sum::{Or, TrackedOr};
use change_tracking::trackable::{ReadLeaf, Trackable, WriteLeaf};
use change_tracking::type_id::TypeInfo;

fn id_u32() -> TypeInfo {
    TypeInfo::of(1, "u32")
}

fn id_f32() -> TypeInfo {
    TypeInfo::of(2, "f32")
}

#[test]
fn tracked_or_metadata() {
    let query_value: Or<WriteLeaf<u32>, ReadLeaf<f32>> = Or::Left(
        WriteLeaf::new(id_u32(), 0u32),
        Shape::Leaf(id_f32(), AccessMode::ReadOnly),
    );

    assert_eq!(query_value.count_types(), 2);

    let all_types = query_value.for_each_type();
    assert_eq!(all_types.len(), 2);
    assert!(all_types.contains(&(id_u32(), AccessMode::ReadWrite)));
    assert!(all_types.contains(&(id_f32(), AccessMode::ReadOnly)));
}

#[test]
fn tracked_or_left() {
    let value = 0u32;
    let or_value: Or<WriteLeaf<u32>, WriteLeaf<f32>> = Or::Left(
        WriteLeaf::new(id_u32(), value),
        Shape::Leaf(id_f32(), AccessMode::ReadWrite),
    );

    let mut changes = Changes::new_for(&or_value);
    let mut projection = or_value.into_tracked();

    match &projection {
        TrackedOr::Left(l) => assert_eq!(*l.get(), 0),
        _ => unreachable!(),
    }
    let mut changed_types = vec![];
    for t in changes.for_each_changed() {
        changed_types.push(t);
    }
    assert!(changed_types.is_empty());

    assert!(!matches!(&projection, TrackedOr::Right(_)));
    assert!(changed_types.is_empty());

    if let TrackedOr::Left(l) = &mut projection {
        l.set(&mut changes, 1);
    }
    match &projection {
        TrackedOr::Left(l) => assert_eq!(*l.get(), 1),
        _ => unreachable!(),
    }
    for t in changes.for_each_changed() {
        changed_types.push(t);
    }
    assert_eq!(changed_types.as_slice(), &[id_u32()]);
}

#[test]
fn tracked_or_right() {
    let value = 0f32;
    let or_value: Or<WriteLeaf<u32>, WriteLeaf<f32>> = Or::Right(
        Shape::Leaf(id_u32(), AccessMode::ReadWrite),
        WriteLeaf::new(id_f32(), value),
    );

    let mut changes = Changes::new_for(&or_value);
    let mut projection = or_value.into_tracked();

    match &projection {
        TrackedOr::Right(r) => assert_eq!(*r.get(), 0.0),
        _ => unreachable!(),
    }
    let mut changed_types = vec![];
    for t in changes.for_each_changed() {
        changed_types.push(t);
    }
    assert!(changed_types.is_empty());

    assert!(!matches!(&projection, TrackedOr::Left(_)));
    assert!(changed_types.is_empty());

    if let TrackedOr::Right(r) = &mut projection {
        r.set(&mut changes, 1.0);
    }
    match &projection {
        TrackedOr::Right(r) => assert_eq!(*r.get(), 1.0),
        _ => unreachable!(),
    }
    for t in changes.for_each_changed() {
        changed_types.push(t);
    }
    assert_eq!(changed_types.as_slice(), &[id_f32()]);
}

#[test]
fn tracked_or_both() {
    let left = 0u32;
    let right = 0f32;
    let or_value: Or<WriteLeaf<u32>, WriteLeaf<f32>> = Or::Both(
        WriteLeaf::new(id_u32(), left),
        WriteLeaf::new(id_f32(), right),
    );

    let mut changes = Changes::new_for(&or_value);
    let mut projection = or_value.into_tracked();

    match &projection {
        TrackedOr::Both(l, r) => {
            assert_eq!(*l.get(), 0);
            assert_eq!(*r.get(), 0.0);
        },
        _ => unreachable!(),
    }
    let mut changed_types = vec![];
    for t in changes.for_each_changed() {
        changed_types.push(t);
    }
    assert!(changed_types.is_empty());

    changed_types.clear();
    if let TrackedOr::Both(l, _) = &mut projection {
        l.set(&mut changes, 1);
    }
    match &projection {
        TrackedOr::Both(l, r) => {
            assert_eq!(*l.get(), 1);
            assert_eq!(*r.get(), 0.0);
        },
        _ => unreachable!(),
    }
    for t in changes.for_each_changed() {
        changed_types.push(t);
    }
    assert_eq!(changed_types.as_slice(), &[id_u32()]);

    changed_types.clear();
    if let TrackedOr::Both(_, r) = &mut projection {
        r.set(&mut changes, 2.0);
    }
    match &projection {
        TrackedOr::Both(l, r) => {
            assert_eq!(*l.get(), 1);
            assert_eq!(*r.get(), 2.0);
        },
        _ => unreachable!(),
    }
    for t in changes.for_each_changed() {
        changed_types.push(t);
    }
    let expected_changed_types = &mut [id_u32(), id_f32()];
    changed_types.sort_by_key(|t| t.id());
    expected_changed_types.sort_by_key(|t| t.id());
    assert_eq!(changed_types.as_slice(), expected_changed_types);
}
