use std::any::TypeId;

use hyperbuf::partition_map::PartitionMap;

#[test]
fn test_partition_map() {
    let mut pm = PartitionMap::new();
    let pm = &mut pm;

    pm.store(0, 1000, TypeId::of::<i32>());
    pm.store(1000, 1001, TypeId::of::<i64>());

    assert_eq!(pm.len(), 2);
    let first = pm.get(0);
    assert_eq!((first.0, first.1), (0, 1000));
    assert_eq!(first.2, TypeId::of::<i32>());
    let second = pm.get(1);
    assert_eq!((second.0, second.1), (1000, 1001));
    assert_eq!(second.2, TypeId::of::<i64>());
}
