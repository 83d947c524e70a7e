//! The tick-based store: current slot, defaults, history growth.

use trnsys_core::history::{MemoryStorageProvider, StoreProvider};

#[test]
fn fresh_store_has_one_unset_slot() {
    let store: MemoryStorageProvider<f64> = MemoryStorageProvider::new();
    assert_eq!(store.get_history().len(), 1);
    assert!(store.get().is_none());
    assert!(!store.has_value());
}

#[test]
fn tick_then_get_is_unset_until_set() {
    let mut store: MemoryStorageProvider<f64> = MemoryStorageProvider::new();
    store.set_dyn(Some(1.5));
    store.tick();
    assert!(store.get().is_none());
    assert!(store.get_last_value().is_none());
    store.set_dyn(Some(2.5));
    assert_eq!(store.get(), Some(&2.5));
}

#[test]
fn default_sets_an_unset_slot_and_then_sticks() {
    let mut store: MemoryStorageProvider<f64> = MemoryStorageProvider::new();
    assert_eq!(store.get_dyn_mut_or_default(5.0), &5.0);
    assert_eq!(store.get(), Some(&5.0));
    assert_eq!(store.get_dyn_mut_or_default(7.0), &5.0);
    assert_eq!(store.get(), Some(&5.0));
}

#[test]
fn history_grows_by_one_per_tick_and_never_shrinks() {
    let mut store: MemoryStorageProvider<i64> = MemoryStorageProvider::new();
    let mut expected: usize = 1;
    for round in 0..5i64 {
        store.tick();
        expected += 1;
        assert_eq!(store.get_history().len(), expected, "after tick {}", round);
        store.set_dyn(Some(round));
        assert_eq!(store.get_history().len(), expected);
        store.get_dyn_mut_or_default(-1);
        assert_eq!(store.get_history().len(), expected);
    }
}

#[test]
fn older_slots_stay_immutable_history() {
    let mut store: MemoryStorageProvider<i64> = MemoryStorageProvider::new();
    store.set_dyn(Some(10));
    store.tick();
    store.set_dyn(Some(20));
    store.tick();
    store.set_dyn(None);
    assert_eq!(store.get_history().as_slice(), &[Some(10), Some(20), None]);
}

#[test]
fn set_dyn_none_clears_the_current_slot() {
    let mut store: MemoryStorageProvider<f64> = MemoryStorageProvider::new();
    store.set_dyn(Some(4.25));
    assert!(store.has_value());
    store.set_dyn(None);
    assert!(!store.has_value());
    assert!(store.get().is_none());
}

#[test]
fn get_last_value_reads_the_current_slot() {
    let mut store: MemoryStorageProvider<f64> = MemoryStorageProvider::new();
    store.set_dyn(Some(8.0));
    assert_eq!(store.get_last_value(), Some(&8.0));
    store.tick();
    assert_eq!(store.get_last_value(), None);
}
