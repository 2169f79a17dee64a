use std::cell::Cell;

use rayca_vk::cache::BufferCache;
use rayca_vk::handle::Handle;
use rayca_vk::keys::{MaterialKey, ModelMatrixKey};

#[test]
fn get_or_create_returns_same_entry() {
    let made = Cell::new(0u32);
    let mut cache: BufferCache<ModelMatrixKey, u32> = BufferCache::new();
    let key = ModelMatrixKey { model: Handle::new(0), node: Handle::new(1) };
    let first = *cache.get_or_create(key, || {
        made.set(made.get() + 1);
        10
    });
    for _ in 0..3 {
        let again = *cache.get_or_create(key, || {
            made.set(made.get() + 1);
            20
        });
        assert_eq!(again, first);
    }
    assert_eq!(made.get(), 1);
    assert_eq!(cache.len(), 1);
}

#[test]
fn entries_are_updated_in_place() {
    let mut cache: BufferCache<MaterialKey, Vec<u8>> = BufferCache::new();
    let key = MaterialKey { model: Handle::new(2), material: Handle::new(3) };
    cache.get_or_create(key, Vec::new).push(1);
    cache.get_or_create(key, Vec::new).push(2);
    assert_eq!(cache.get(&key), Some(&vec![1, 2]));
    if let Some(b) = cache.get_mut(&key) {
        b.push(3);
    }
    assert_eq!(cache.get(&key), Some(&vec![1, 2, 3]));
}

#[test]
fn distinct_keys_get_distinct_entries() {
    let mut cache: BufferCache<ModelMatrixKey, u32> = BufferCache::new();
    let a = ModelMatrixKey { model: Handle::new(0), node: Handle::new(1) };
    let b = ModelMatrixKey { model: Handle::new(1), node: Handle::new(0) };
    assert_eq!(*cache.get_or_create(a, || 1), 1);
    assert_eq!(*cache.get_or_create(b, || 2), 2);
    assert_eq!(cache.len(), 2);
    assert!(cache.contains(&a));
    assert!(cache.contains(&b));
    let c = ModelMatrixKey { model: Handle::new(1), node: Handle::new(1) };
    assert!(!cache.contains(&c));
    assert_eq!(cache.get(&c), None);
    assert!(cache.get_mut(&c).is_none());
}
