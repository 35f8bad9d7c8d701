//! The memoization cell's run-time contract, and the emitted accessor
//! pattern on a concrete structure.

use computed::Example;
use computed::MemoCell;

fn total(items: &Vec<f64>, discount: &f64) -> f64 {
    let mut sum = 0.0;
    for v in items.iter() {
        sum += *v;
    }
    sum * (1.0 - *discount)
}

#[test]
fn cell_starts_empty() {
    let cell: MemoCell<u64> = MemoCell::new();
    assert!(!cell.is_populated());
}

#[test]
fn cell_computes_and_caches() {
    let mut cell: MemoCell<u64> = MemoCell::new();
    let mut calls = 0;
    let first = *cell.get_or_init(|| {
        calls += 1;
        41
    });
    assert_eq!(first, 41);
    assert!(cell.is_populated());
    let second = *cell.get_or_init(|| {
        calls += 1;
        99
    });
    assert_eq!(second, 41);
    assert_eq!(calls, 1);
    assert_eq!(*cell.get(), 41);
}

#[test]
fn cell_invalidate_clears_any_state() {
    let mut cell: MemoCell<u64> = MemoCell::new();
    cell.invalidate();
    assert!(!cell.is_populated());
    cell.get_or_init(|| 7);
    assert!(cell.is_populated());
    cell.invalidate();
    assert!(!cell.is_populated());
    cell.invalidate();
    assert!(!cell.is_populated());
}

#[test]
fn cell_recomputes_after_invalidate() {
    let mut cell: MemoCell<u64> = MemoCell::new();
    assert_eq!(*cell.get_or_init(|| 1), 1);
    cell.invalidate();
    assert_eq!(*cell.get_or_init(|| 2), 2);
}

#[test]
fn getter_returns_most_recent_value() {
    let mut ex: Example<f64> = Example::new(vec![1.0], 0.0);
    assert_eq!(ex.get_items(), &vec![1.0]);
    ex.set_items(vec![2.0, 3.0]);
    assert_eq!(ex.get_items(), &vec![2.0, 3.0]);
    ex.set_items(vec![4.0]);
    assert_eq!(ex.get_items(), &vec![4.0]);
    assert_eq!(*ex.get_discount(), 0.0);
    ex.set_discount(0.25);
    assert_eq!(*ex.get_discount(), 0.25);
}

#[test]
fn setter_leaves_target_cell_empty() {
    let mut ex: Example<f64> = Example::new(vec![1.0, 2.0], 0.0);
    // prior state Empty
    ex.set_items(vec![3.0]);
    assert!(!ex.sum.is_populated());
    // prior state Populated
    ex.compute_sum(|items, d| total(items, d));
    assert!(ex.sum.is_populated());
    ex.set_items(vec![4.0]);
    assert!(!ex.sum.is_populated());
    ex.compute_sum(|items, d| total(items, d));
    ex.set_discount(0.5);
    assert!(!ex.sum.is_populated());
}

#[test]
fn compute_runs_at_most_once_between_invalidations() {
    let mut ex: Example<f64> = Example::new(vec![1.0, 2.0, 3.0], 0.0);
    let mut calls = 0;
    let first = *ex.compute_sum(|items, d| {
        calls += 1;
        total(items, d)
    });
    let second = *ex.compute_sum(|items, d| {
        calls += 1;
        total(items, d)
    });
    assert_eq!(first, 6.0);
    assert_eq!(second, 6.0);
    assert_eq!(calls, 1);
}

#[test]
fn set_items_invalidates_and_sum_is_recomputed_once() {
    let mut ex: Example<f64> = Example::new(vec![1.0, 2.0, 3.0], 0.0);
    assert_eq!(ex.get_items(), &vec![1.0, 2.0, 3.0]);
    assert_eq!(*ex.compute_sum(|items, d| total(items, d)), 6.0);
    ex.set_items(vec![4.0, 5.0, 6.0]);
    let mut calls = 0;
    let sum = *ex.compute_sum(|items, d| {
        calls += 1;
        total(items, d)
    });
    assert_eq!(sum, 15.0);
    assert_eq!(calls, 1);
    // cached from here on
    assert_eq!(*ex.compute_sum(|items, d| total(items, d)), 15.0);
}

#[test]
fn either_source_forces_recompute_with_current_values() {
    let mut ex: Example<f64> = Example::new(vec![2.0, 4.0], 0.0);
    assert_eq!(*ex.compute_sum(|items, d| total(items, d)), 6.0);
    // mutate only the discount: the next compute uses both current values
    ex.set_discount(0.5);
    assert_eq!(*ex.compute_sum(|items, d| total(items, d)), 3.0);
    // mutate only the items: likewise
    ex.set_items(vec![10.0]);
    assert_eq!(*ex.compute_sum(|items, d| total(items, d)), 5.0);
}
