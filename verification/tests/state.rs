use mwdg::registry::WatchdogRegistry;

#[test]
fn test_internal_state_single_node_add() {
    let mut reg = WatchdogRegistry::new();
    let wdg = reg.new_node();
    reg.add(wdg, 1, 0);
    assert_eq!(1, reg.linked_count(), "Invalid number of nodes");
}

#[test]
fn test_internal_state_multiple_nodes_add() {
    let mut reg = WatchdogRegistry::new();
    let wdg1 = reg.new_node();
    let wdg2 = reg.new_node();
    let wdg3 = reg.new_node();

    reg.add(wdg1, 1, 0);
    reg.add(wdg2, 2, 0);
    reg.add(wdg3, 3, 0);

    assert_eq!(3, reg.linked_count(), "Invalid number of nodes");
}

#[test]
fn test_internal_state_multiple_nodes_add_multiple_remove() {
    let mut reg = WatchdogRegistry::new();
    let wdg1 = reg.new_node();
    let wdg2 = reg.new_node();
    let wdg3 = reg.new_node();

    reg.add(wdg1, 1, 0);
    reg.add(wdg1, 1, 0);
    reg.add(wdg1, 1, 0);
    reg.add(wdg2, 2, 0);
    reg.add(wdg2, 2, 0);
    reg.add(wdg2, 2, 0);
    reg.add(wdg3, 3, 0);
    reg.add(wdg3, 3, 0);
    reg.add(wdg3, 3, 0);

    assert_eq!(3, reg.linked_count(), "Invalid number of nodes");

    reg.remove(wdg3);
    reg.remove(wdg3);
    reg.remove(wdg3);

    assert_eq!(2, reg.linked_count(), "Invalid number of nodes");

    reg.remove(wdg1);
    reg.remove(wdg1);
    reg.remove(wdg1);

    assert_eq!(1, reg.linked_count(), "Invalid number of nodes");

    reg.remove(wdg2);
    reg.remove(wdg2);
    reg.remove(wdg2);

    assert_eq!(0, reg.linked_count(), "Invalid number of nodes");
}

#[test]
fn test_register_sets_fields() {
    let mut reg = WatchdogRegistry::new();
    let wdg = reg.new_node();

    reg.add(wdg, 250, 42);
    assert_eq!(reg.node(wdg).unwrap().timeout_interval_ms(), 250);
    assert_eq!(reg.node(wdg).unwrap().last_touched_timestamp_ms(), 42);
}

#[test]
fn lib_test_feed_updates_timestamp() {
    let mut reg = WatchdogRegistry::new();
    let wdg = reg.new_node();

    reg.add(wdg, 500, 100);
    assert_eq!(reg.node(wdg).unwrap().last_touched_timestamp_ms(), 100);

    reg.feed(wdg, 350);
    assert_eq!(reg.node(wdg).unwrap().last_touched_timestamp_ms(), 350);
}
