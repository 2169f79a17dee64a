use std::collections::hash_map::DefaultHasher;
use std::hash::{Hash, Hasher};

use rayca_vk::descriptor::{descriptor_pool_max_sets, DescriptorEntry, DescriptorKey, Descriptors};
use rayca_vk::handle::Handle;

#[test]
fn key() {
    let key0 = DescriptorKey::builder().node(Handle::new(0)).build();
    let key1 = DescriptorKey::builder().material(Handle::new(0)).build();

    let mut hasher0 = DefaultHasher::new();
    let mut hasher1 = DefaultHasher::new();

    key0.hash(&mut hasher0);
    key1.hash(&mut hasher1);

    assert_ne!(hasher0.finish(), hasher1.finish());
}

#[test]
fn builder_sets_each_field() {
    let key = DescriptorKey::builder()
        .layout(7)
        .model(Handle::new(1))
        .node(Handle::new(2))
        .material(Handle::new(3))
        .camera(Handle::new(4))
        .build();
    assert_eq!(key.layout, 7);
    assert_eq!(key.model, Handle::new(1));
    assert_eq!(key.node, Handle::new(2));
    assert_eq!(key.material, Handle::new(3));
    assert_eq!(key.camera, Handle::new(4));
    let empty = DescriptorKey::builder().build();
    assert_eq!(empty.layout, 0);
    assert!(!empty.node.is_valid());
    assert!(!empty.camera.is_valid());
}

#[test]
fn descriptor_sets_created_once_then_found() {
    let mut descriptors = Descriptors::new(9);
    let key = DescriptorKey::builder().layout(1).node(Handle::new(5)).build();
    match descriptors.get_or_create(key, || vec![100, 101]) {
        DescriptorEntry::Created(sets) => assert_eq!(sets, &vec![100, 101]),
        DescriptorEntry::Get(_) => panic!("first request must create"),
    }
    match descriptors.get_or_create(key, || vec![200]) {
        DescriptorEntry::Get(sets) => assert_eq!(sets, &vec![100, 101]),
        DescriptorEntry::Created(_) => panic!("second request must find"),
    }
    let other = DescriptorKey::builder().layout(2).node(Handle::new(5)).build();
    match descriptors.get_or_create(other, || vec![300]) {
        DescriptorEntry::Created(sets) => assert_eq!(sets, &vec![300]),
        DescriptorEntry::Get(_) => panic!("another layout is another key"),
    }
    assert_eq!(descriptors.sets.len(), 2);
    assert_eq!(descriptors.pool, 9);
}

#[test]
fn pool_max_sets_sums_limits() {
    assert_eq!(descriptor_pool_max_sets(8, 16, 4), Some(28));
    assert_eq!(descriptor_pool_max_sets(0, 0, 0), Some(0));
    assert_eq!(descriptor_pool_max_sets(u32::MAX, 0, 0), Some(u32::MAX));
    assert_eq!(descriptor_pool_max_sets(u32::MAX, 1, 0), None);
}
