use mwdg::registry::{ExpiredCursor, WatchdogRegistry};
use mwdg::time::{elapsed_since, HALF_RANGE_MS};

fn collect_ids(reg: &WatchdogRegistry) -> Vec<u32> {
    let mut ids = Vec::new();
    let mut cursor = ExpiredCursor::start();
    while let Some(id) = reg.next_expired(&mut cursor) {
        ids.push(id);
    }
    ids
}

// ---------------------------------------------------------------
// upsert idempotence
// ---------------------------------------------------------------

#[test]
fn prop_upsert_twice_keeps_list_and_id() {
    let mut reg = WatchdogRegistry::new();
    let n = reg.new_node();
    reg.assign_id(n, 9);

    reg.add(n, 100, 10);
    reg.add(n, 250, 50);

    assert_eq!(reg.linked_count(), 1);
    assert_eq!(reg.node(n).unwrap().timeout_interval_ms(), 250);
    assert_eq!(reg.node(n).unwrap().last_touched_timestamp_ms(), 50);
    assert_eq!(reg.node(n).unwrap().id(), 9);
}

// ---------------------------------------------------------------
// removal idempotence
// ---------------------------------------------------------------

#[test]
fn prop_remove_zero_one_many_times() {
    let mut reg = WatchdogRegistry::new();
    let a = reg.new_node();
    let b = reg.new_node();
    reg.add(a, 100, 0);
    reg.add(b, 200, 0);

    // zero removals
    assert_eq!(reg.linked_count(), 2);

    // one removal
    reg.remove(a);
    assert_eq!(reg.linked_count(), 1);
    assert!(!reg.is_linked(a));
    assert!(reg.is_linked(b));

    // many removals: no further change
    reg.remove(a);
    reg.remove(a);
    reg.remove(a);
    assert_eq!(reg.linked_count(), 1);
    assert_eq!(reg.linked_at(0), Some(b));
}

// ---------------------------------------------------------------
// wraparound arithmetic
// ---------------------------------------------------------------

#[test]
fn prop_elapsed_exact_values() {
    assert_eq!(elapsed_since(150, 100), 50);
    assert_eq!(elapsed_since(100, 100), 0);
    // Across the 32-bit wrap: fed at MAX-50, sampled 80 later.
    let near_max = u32::MAX - 50;
    assert_eq!(elapsed_since(near_max.wrapping_add(80), near_max), 80);
    assert_eq!(elapsed_since(near_max.wrapping_add(150), near_max), 150);
    // A sample that lies before the timestamp wraps to a huge reading.
    assert_eq!(elapsed_since(200, 201), u32::MAX);
}

#[test]
fn prop_wraparound_check() {
    let near_max = u32::MAX - 50;

    let mut reg = WatchdogRegistry::new();
    let n = reg.new_node();
    reg.add(n, 100, near_max);
    assert!(!reg.check(near_max.wrapping_add(80)));

    let mut reg2 = WatchdogRegistry::new();
    let n2 = reg2.new_node();
    reg2.add(n2, 100, near_max);
    assert!(reg2.check(near_max.wrapping_add(150)));
}

// ---------------------------------------------------------------
// latching
// ---------------------------------------------------------------

#[test]
fn prop_latch_survives_feeding_every_node() {
    let mut reg = WatchdogRegistry::new();
    let a = reg.new_node();
    let b = reg.new_node();
    reg.add(a, 10, 0);
    reg.add(b, 500, 0);

    assert!(reg.check(100));
    assert_eq!(reg.expired_at_ms(), 100);

    // Feed every node afterwards...
    reg.feed(a, 150);
    reg.feed(b, 150);

    // ...and check again at several later times: still expired, snapshot
    // untouched.
    assert!(reg.check(160));
    assert_eq!(reg.expired_at_ms(), 100);
    assert!(reg.check(10_000));
    assert_eq!(reg.expired_at_ms(), 100);
}

// ---------------------------------------------------------------
// snapshot-consistent enumeration
// ---------------------------------------------------------------

#[test]
fn prop_enumeration_against_frozen_snapshot() {
    let mut reg = WatchdogRegistry::new();
    let a = reg.new_node();
    let b = reg.new_node();
    let c = reg.new_node();
    reg.assign_id(a, 1);
    reg.assign_id(b, 2);
    reg.assign_id(c, 3);
    reg.add(a, 100, 0);
    reg.add(b, 200, 0);
    reg.add(c, 300, 0);

    // At 250 the nodes with timeouts 100 and 200 are over threshold.
    assert!(reg.check(250));

    // A feed on the healthy node after the check must not change what the
    // enumeration reports.
    reg.feed(c, 260);

    let ids = collect_ids(&reg);
    assert_eq!(ids.len(), 2);
    assert!(ids.contains(&1));
    assert!(ids.contains(&2));
    assert!(!ids.contains(&3));
}

#[test]
fn prop_enumeration_resumes_from_cursor() {
    let mut reg = WatchdogRegistry::new();
    let a = reg.new_node();
    let b = reg.new_node();
    reg.assign_id(a, 1);
    reg.assign_id(b, 2);
    reg.add(a, 10, 0);
    reg.add(b, 10, 0);
    assert!(reg.check(50));

    // One cursor, one sweep: each call yields the next match.
    let mut cursor = ExpiredCursor::start();
    assert_eq!(reg.next_expired(&mut cursor), Some(2)); // head: b
    assert_eq!(reg.next_expired(&mut cursor), Some(1)); // then a
    assert_eq!(reg.next_expired(&mut cursor), None);
    // Exhausted cursors stay exhausted.
    assert_eq!(reg.next_expired(&mut cursor), None);

    // A fresh cursor replays the same sweep against the same snapshot.
    let mut replay = ExpiredCursor::start();
    assert_eq!(reg.next_expired(&mut replay), Some(2));
    assert_eq!(reg.next_expired(&mut replay), Some(1));
    assert_eq!(reg.next_expired(&mut replay), None);
}

#[test]
fn prop_snapshot_guard_boundary() {
    // An elapsed reading of exactly HALF_RANGE_MS against the snapshot is
    // still accepted as genuine passage of time and reported.
    let mut reg = WatchdogRegistry::new();
    let n = reg.new_node();
    reg.assign_id(n, 8);
    reg.add(n, 1, 0);

    assert!(reg.check(HALF_RANGE_MS));
    assert_eq!(elapsed_since(reg.expired_at_ms(), 0), HALF_RANGE_MS);
    let ids = collect_ids(&reg);
    assert_eq!(ids, vec![8]);
}

// ---------------------------------------------------------------
// strict threshold boundary
// ---------------------------------------------------------------

#[test]
fn prop_boundary_healthy_at_timeout_expired_past_it() {
    let mut reg = WatchdogRegistry::new();
    let n = reg.new_node();
    reg.add(n, 200, 0);
    // elapsed == timeout: healthy
    assert!(!reg.check(200));

    let mut reg2 = WatchdogRegistry::new();
    let n2 = reg2.new_node();
    reg2.add(n2, 200, 0);
    // elapsed == timeout + 1: expired
    assert!(reg2.check(201));
}

#[test]
fn prop_largest_timeout_never_expires() {
    let mut reg = WatchdogRegistry::new();
    let n = reg.new_node();
    reg.add(n, u32::MAX, 0);
    // The elapsed reading can never exceed u32::MAX, so the node can never
    // be strictly over threshold.
    assert!(!reg.check(u32::MAX));
    assert!(!reg.check(17));
}

// ---------------------------------------------------------------
// empty registry
// ---------------------------------------------------------------

#[test]
fn prop_empty_registry_always_healthy() {
    let mut reg = WatchdogRegistry::new();
    assert!(!reg.check(0));
    assert!(!reg.check(12345));
    assert!(!reg.check(u32::MAX));

    // Enumeration on an unlatched registry yields nothing and leaves the
    // cursor alone.
    let mut cursor = ExpiredCursor::start();
    assert_eq!(reg.next_expired(&mut cursor), None);

    // A registry whose nodes were all unlinked again is just as healthy.
    let n = reg.new_node();
    reg.add(n, 1, 0);
    reg.remove(n);
    assert!(!reg.check(1000));
}

// ---------------------------------------------------------------
// absent handles
// ---------------------------------------------------------------

#[test]
fn prop_absent_handle_is_noop() {
    let mut reg = WatchdogRegistry::new();
    let n = reg.new_node();
    reg.add(n, 100, 0);

    // A handle that denotes no slot: every operation ignores it.
    let missing = 1_000_000usize;
    assert!(reg.node(missing).is_none());
    reg.add(missing, 5, 0);
    reg.feed(missing, 5);
    reg.assign_id(missing, 5);
    reg.remove(missing);

    assert_eq!(reg.linked_count(), 1);
    assert!(!reg.check(50));
}
