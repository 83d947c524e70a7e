//! One record per instance identifier, for the process lifetime.

use trnsys_core::registry::StateRegistry;

#[test]
fn same_unit_gets_the_same_slot() {
    let mut registry: StateRegistry<f64, f64> = StateRegistry::new();
    let first = registry.get_or_create(17);
    let again = registry.get_or_create(17);
    assert_eq!(first, again);
    assert_eq!(registry.entries.len(), 1);
}

#[test]
fn same_unit_at_different_times_names_the_identical_record() {
    let mut registry: StateRegistry<f64, f64> = StateRegistry::new();
    let slot = registry.get_or_create(5);
    registry.entries[slot].state.num_outputs = 99;
    let _other = registry.get_or_create(6);
    let later = registry.get_or_create(5);
    assert_eq!(later, slot);
    assert_eq!(registry.state_of(later).num_outputs, 99);
}

#[test]
fn distinct_units_get_distinct_records() {
    let mut registry: StateRegistry<f64, f64> = StateRegistry::new();
    let a = registry.get_or_create(1);
    let b = registry.get_or_create(2);
    let c = registry.get_or_create(-7);
    assert_ne!(a, b);
    assert_ne!(b, c);
    assert_ne!(a, c);
    assert_eq!(registry.entries.len(), 3);
}

#[test]
fn fresh_records_are_zero_initialized() {
    let mut registry: StateRegistry<f64, f64> = StateRegistry::new();
    let slot = registry.get_or_create(11);
    let state = registry.state_of(slot);
    assert_eq!(state.trnsys_standard_version, 18);
    assert_eq!(state.num_params, 0);
    assert_eq!(state.num_inputs, 0);
    assert_eq!(state.num_outputs, 0);
    assert_eq!(state.num_derivatives, 0);
    assert_eq!(state.num_labels, 0);
    assert!(state.params.is_empty());
    assert!(state.inputs.is_empty());
    assert!(state.outputs.is_empty());
    assert!(state.labels.is_empty());
    assert!(state.dynamic_store.is_none());
    assert!(state.static_store.is_none());
}
