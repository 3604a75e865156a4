//! Tests of the label-keyed resource cache: the idempotent creation path
//! and the direct management operations.

use std::cell::Cell;
use std::sync::Arc;
use wlrs::renderer::manager::Manager;

#[test]
fn get_or_init_invokes_the_factory_exactly_once() {
    let mut cache: Manager<u32> = Manager::new();
    let calls = Cell::new(0u32);

    let first = cache.get_or_init("texture_bind_group_layout", || {
        calls.set(calls.get() + 1);
        Arc::new(7)
    });
    assert_eq!(calls.get(), 1);
    assert_eq!(*first, 7);

    let second = cache.get_or_init("texture_bind_group_layout", || {
        calls.set(calls.get() + 1);
        Arc::new(99)
    });
    // The factory ran exactly once; both calls hand out the same shared
    // object.
    assert_eq!(calls.get(), 1);
    assert_eq!(*second, 7);
    assert!(Arc::ptr_eq(&first, &second));
}

#[test]
fn distinct_labels_create_distinct_objects() {
    let mut cache: Manager<u32> = Manager::new();
    let a = cache.get_or_init("color_render_pipeline", || Arc::new(1));
    let b = cache.get_or_init("effect_render_pipeline", || Arc::new(2));
    assert_eq!(*a, 1);
    assert_eq!(*b, 2);
    assert_eq!(*cache.get("color_render_pipeline").unwrap(), 1);
    assert_eq!(*cache.get("effect_render_pipeline").unwrap(), 2);
    assert!(cache.get("missing").is_none());
}

#[test]
fn insert_remove_and_clear_manage_entries() {
    let mut cache: Manager<u32> = Manager::new();
    assert!(cache.insert("a".to_string(), 1).is_none());
    assert!(cache.contains("a"));
    let displaced = cache.insert("a".to_string(), 2);
    assert_eq!(*displaced.unwrap(), 1);
    assert_eq!(*cache.get("a").unwrap(), 2);

    let shared = Arc::new(5u32);
    assert!(cache.insert_rc("b".to_string(), shared.clone()).is_none());
    assert!(Arc::ptr_eq(&cache.get("b").unwrap(), &shared));

    let removed = cache.remove("a");
    assert_eq!(*removed.unwrap(), 2);
    assert!(!cache.contains("a"));
    assert!(cache.remove("a").is_none());

    cache.clear();
    assert!(!cache.contains("b"));
}

#[test]
fn update_touches_only_existing_labels() {
    let mut cache: Manager<u32> = Manager::new();
    assert!(cache.update("ghostly", 1).is_none());
    assert!(!cache.contains("ghostly"));

    cache.insert("present".to_string(), 1);
    let old = cache.update("present", 2);
    assert_eq!(*old.unwrap(), 1);
    assert_eq!(*cache.get("present").unwrap(), 2);
}
