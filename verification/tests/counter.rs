use rust_structures::increment_only_first;
use rust_structures::Counter;

#[test]
fn fresh_counter_reads_zero() {
    let c = Counter::new();
    assert_eq!(c.get_count(), 0);
}

#[test]
fn single_increment_reads_one() {
    let mut c = Counter::new();
    c.increment();
    assert_eq!(c.get_count(), 1);
}

#[test]
fn many_increments_read_their_number() {
    let mut c = Counter::new();
    for _ in 0..100 {
        c.increment();
    }
    assert_eq!(c.get_count(), 100);
}

#[test]
fn instances_are_independent() {
    let mut a = Counter::new();
    let mut b = Counter::new();
    a.increment();
    a.increment();
    a.increment();
    assert_eq!(b.get_count(), 0);
    b.increment();
    assert_eq!(a.get_count(), 3);
    assert_eq!(b.get_count(), 1);
}

#[test]
fn increment_only_first_leaves_second_alone() {
    let mut a = Counter::new();
    let mut b = Counter::new();
    b.increment();
    increment_only_first(&mut a, &mut b);
    assert_eq!(a.get_count(), 1);
    assert_eq!(b.get_count(), 1);
}

#[test]
fn repeated_reads_agree() {
    let mut c = Counter::new();
    c.increment();
    let first = c.get_count();
    let second = c.get_count();
    let third = c.get_count();
    assert_eq!(first, 1);
    assert_eq!(second, first);
    assert_eq!(third, first);
}

#[test]
fn two_counters_scenario() {
    let mut c1 = Counter::new();
    assert_eq!(c1.get_count(), 0);
    c1.increment();
    c1.increment();
    assert_eq!(c1.get_count(), 2);
    let c2 = Counter::new();
    assert_eq!(c2.get_count(), 0);
    assert_eq!(c1.get_count(), 2);
}
