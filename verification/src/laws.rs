//! General properties of the registry, stated and proved over the spec
//! transitions of [`crate::model`].

use vstd::prelude::*;

use crate::model::{
    add_view, assign_id_view, check_result, check_view, feed_view, link_index, node_expired_at,
    node_expired_at_snapshot, reg_wf, remove_view, NodeView, RegistryView,
};
use crate::time::{elapsed_ms, HALF_RANGE_MS};

verus! {

/// Upsert idempotence: registering the same node twice, with whatever
/// timeouts and timestamps, leaves exactly the state of the second
/// registration alone. In particular the list never grows past the first
/// registration, the final interval and timestamp are those of the last
/// call, and a pre-assigned identifier survives untouched.
pub proof fn lemma_add_upsert_idempotent(
    r: RegistryView,
    wdg: usize,
    t1: u32,
    n1: u32,
    t2: u32,
    n2: u32,
)
    ensures
        add_view(add_view(r, wdg, t1, n1), wdg, t2, n2) == add_view(r, wdg, t2, n2),
        add_view(add_view(r, wdg, t1, n1), wdg, t2, n2).links.len() == add_view(
            r,
            wdg,
            t2,
            n2,
        ).links.len(),
        (wdg as int) < r.nodes.len() ==> {
            let twice = add_view(add_view(r, wdg, t1, n1), wdg, t2, n2);
            &&& twice.nodes[wdg as int].timeout_interval_ms == t2
            &&& twice.nodes[wdg as int].last_touched_timestamp_ms == n2
            &&& twice.nodes[wdg as int].id == r.nodes[wdg as int].id
        },
{
    if (wdg as int) < r.nodes.len() {
        let r1 = add_view(r, wdg, t1, n1);
        assert(r1.links.contains(wdg)) by {
            if !r.links.contains(wdg) {
                assert(r1.links[0] == wdg);
            }
        }
        assert(add_view(r1, wdg, t2, n2) =~= add_view(r, wdg, t2, n2));
    }
}

/// Removal idempotence: removing a node 0, 1 or N times yields the same
/// final list. The first removal (if the node was linked at all) unlinks
/// its single occurrence; every further removal is a no-op.
pub proof fn lemma_remove_idempotent(r: RegistryView, wdg: usize)
    requires
        reg_wf(r),
    ensures
        remove_view(remove_view(r, wdg), wdg) == remove_view(r, wdg),
        !remove_view(r, wdg).links.contains(wdg),
        r.links.contains(wdg) ==> remove_view(r, wdg).links.len() == r.links.len() - 1,
        !r.links.contains(wdg) ==> remove_view(r, wdg) == r,
{
    if r.links.contains(wdg) {
        let ci = link_index(r.links, wdg);
        assert(0 <= ci < r.links.len() && r.links[ci] == wdg);
        let l1 = r.links.remove(ci);
        assert forall|i: int| 0 <= i < l1.len() implies l1[i] != wdg by {
            if i < ci {
                assert(l1[i] == r.links[i]);
                assert(r.links[i] != r.links[ci]);
            } else {
                assert(l1[i] == r.links[i + 1]);
                assert(r.links[ci] != r.links[i + 1]);
            }
        }
        assert(!l1.contains(wdg));
    }
}

/// Latching: once the registry has latched with snapshot `expired_at_ms`,
/// checking again at any later clock sample still reports expired and
/// changes nothing — and no amount of feeding, re-registering, unlinking
/// or re-tagging in between clears the latch or moves the snapshot.
pub proof fn lemma_latch_is_permanent(
    r: RegistryView,
    wdg: usize,
    timeout_ms: u32,
    now: u32,
    id: u32,
    later: u32,
)
    requires
        r.expired,
    ensures
        check_result(r, later),
        check_view(r, later) == r,
        feed_view(r, wdg, now).expired,
        feed_view(r, wdg, now).expired_at_ms == r.expired_at_ms,
        add_view(r, wdg, timeout_ms, now).expired,
        add_view(r, wdg, timeout_ms, now).expired_at_ms == r.expired_at_ms,
        remove_view(r, wdg).expired,
        remove_view(r, wdg).expired_at_ms == r.expired_at_ms,
        assign_id_view(r, wdg, id).expired,
        assign_id_view(r, wdg, id).expired_at_ms == r.expired_at_ms,
{
}

/// Snapshot-consistent enumeration: a feed that lands after the frozen
/// snapshot (its timestamp compares to the snapshot as an elapsed reading
/// in the upper half of the 32-bit range) excludes the fed node from the
/// enumeration and leaves every other linked node's snapshot verdict
/// exactly as it was.
pub proof fn lemma_enumeration_snapshot_consistent(r: RegistryView, wdg: usize, tf: u32, p: int)
    requires
        reg_wf(r),
        elapsed_ms(r.expired_at_ms, tf) > HALF_RANGE_MS,
        0 <= p < r.links.len(),
    ensures
        r.links[p] == wdg ==> !node_expired_at_snapshot(
            feed_view(r, wdg, tf).nodes[feed_view(r, wdg, tf).links[p] as int],
            feed_view(r, wdg, tf).expired_at_ms,
        ),
        r.links[p] != wdg ==> node_expired_at_snapshot(
            feed_view(r, wdg, tf).nodes[feed_view(r, wdg, tf).links[p] as int],
            feed_view(r, wdg, tf).expired_at_ms,
        ) == node_expired_at_snapshot(r.nodes[r.links[p] as int], r.expired_at_ms),
{
}

/// Empty registry: a check on a registry with no linked nodes, whose latch
/// is clear, is always healthy and changes nothing.
pub proof fn lemma_empty_registry_healthy(r: RegistryView, now: u32)
    requires
        r.links.len() == 0,
        !r.expired,
    ensures
        !check_result(r, now),
        check_view(r, now) == r,
{
}

/// The threshold test is strict: at exactly the timeout boundary a node is
/// still healthy; one millisecond past it, it is expired.
pub proof fn lemma_expiry_strict_boundary(n: NodeView, now: u32)
    ensures
        elapsed_ms(now, n.last_touched_timestamp_ms) == n.timeout_interval_ms
            ==> !node_expired_at(n, now),
        n.timeout_interval_ms < u32::MAX && elapsed_ms(now, n.last_touched_timestamp_ms)
            == n.timeout_interval_ms + 1 ==> node_expired_at(n, now),
{
}

/// Snapshot consistency: a node whose timestamp was written after the
/// frozen snapshot (its elapsed reading against the snapshot falls in the
/// upper half of the 32-bit range) is never reported by the enumeration.
pub proof fn lemma_fed_after_snapshot_not_reported(n: NodeView, snapshot: u32)
    requires
        elapsed_ms(snapshot, n.last_touched_timestamp_ms) > HALF_RANGE_MS,
    ensures
        !node_expired_at_snapshot(n, snapshot),
{
}

} // verus!
