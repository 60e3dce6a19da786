use std::cell::Cell;

use incremental::{
    vec_set_add, Current, Dependee, Graph, LastComputed, LastModified, LastVerified, Presence,
    Revision,
};

#[test]
fn fresh_graph_starts_one_past_dirty() {
    let graph = Graph::new();
    let current = Current::new();

    // The dirty sentinel sits strictly below a fresh counter, so a dirty
    // stamp is stale against any graph from the first moment on.
    assert_ne!(Revision::dirty(), graph.revision());
    assert_ne!(Revision::dirty(), current.revision());
    assert_eq!(current.revision(), graph.revision());

    assert!(LastVerified::dirty().should_verify(&current));
    assert!(!LastVerified::clean(&current).should_verify(&current));
}

#[test]
fn equal_write_is_a_no_op() {
    let mut graph = Graph::new();
    let mut leaf = graph.leaf(41u32);
    let before = graph.revision();

    // Writing the value already held advances nothing and returns it.
    assert_eq!(41, graph.replace(&mut leaf, 41));
    assert_eq!(before, graph.revision());

    // An effective write advances the revision by exactly one and returns
    // the previous value.
    assert_eq!(41, graph.replace(&mut leaf, 42));
    assert_ne!(before, graph.revision());
}

#[test]
fn replace_always_forces_invalidation() {
    let mut graph = Graph::new();
    let mut leaf = graph.leaf(7u32);
    let before = graph.revision();

    // Even a value-equal write advances the revision here.
    assert_eq!(7, graph.replace_always(&mut leaf, 7));
    assert_ne!(before, graph.revision());
}

#[test]
fn stamps_compare_and_update_exactly() {
    let mut current = Current::new();

    // A leaf stamp advances the counter by exactly one on each write.
    let mut modified = LastModified::new(&current);
    assert_eq!(current.revision(), modified.revision());
    modified.modify(&mut current);
    assert_eq!(current.revision(), modified.revision());

    // A computed stamp folds dependencies as a running maximum: dirty is
    // below everything, and folding is idempotent.
    let mut computed = LastComputed::dirty();
    assert!(computed.should_compute(&modified));
    computed.update_to(&modified);
    assert!(!computed.should_compute(&modified));
    assert_eq!(modified.revision(), computed.revision());
    computed.update_to(&modified);
    assert_eq!(modified.revision(), computed.revision());

    // Folding an older dependency does not lower the maximum.
    computed.update_to(&Revision::dirty());
    assert_eq!(modified.revision(), computed.revision());

    // A verified stamp moves to the counter, and only forward.
    let mut verified = LastVerified::dirty();
    assert!(verified.should_verify(&current));
    verified.update_to(&current);
    assert!(!verified.should_verify(&current));
}

#[test]
fn verify_with_runs_closure_only_when_stale() {
    let mut current = Current::new();
    let mut stale = LastVerified::dirty();
    let mut fresh = LastVerified::clean(&current);

    let ran = Cell::new(0u32);
    stale.verify_with(&current, || ran.set(ran.get() + 1));
    assert_eq!(1, ran.get());
    assert!(!stale.should_verify(&current));

    // Already verified at this revision: the closure must not run.
    stale.verify_with(&current, || ran.set(ran.get() + 1));
    fresh.verify_with(&current, || ran.set(ran.get() + 1));
    assert_eq!(1, ran.get());
}

#[test]
fn vec_set_add_keeps_first_occurrence_order() {
    let mut seen: Vec<usize> = Vec::new();

    assert!(matches!(vec_set_add(&mut seen, 3), Presence::Unique));
    assert!(matches!(vec_set_add(&mut seen, 1), Presence::Unique));
    assert!(matches!(vec_set_add(&mut seen, 3), Presence::Duplicate));
    assert!(matches!(vec_set_add(&mut seen, 2), Presence::Unique));
    assert!(matches!(vec_set_add(&mut seen, 1), Presence::Duplicate));

    // First occurrence wins; later repeats change nothing.
    assert_eq!(vec![3, 1, 2], seen);
}

#[test]
fn dependency_scan_finds_exactly_the_newer_stamp() {
    let mut current = Current::new();

    let old_a = LastModified::new(&current);
    let old_b = LastModified::new(&current);
    let computed = LastComputed::clean(&current);

    // Everything was stamped at or before the last computation: nothing to
    // do.
    assert!(!computed.should_compute_any(&vec![old_a, old_b]));
    assert!(!computed.should_compute_any(&vec![]));

    // One stamp moves past it: the scan must notice, wherever it sits.
    let mut newer = LastModified::new(&current);
    newer.modify(&mut current);
    assert!(computed.should_compute_any(&vec![old_a, newer, old_b]));
    assert!(computed.should_compute_any(&vec![newer]));
}
