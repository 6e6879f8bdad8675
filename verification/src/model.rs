//! Mathematical model of the registry.
//!
//! [`RegistryView`] is the abstract state of a [`crate::registry::WatchdogRegistry`]:
//! an arena of node records together with the membership list (head first)
//! and the expiry latch. Every operation of the registry is mirrored here by
//! a spec-level transition; the executable methods promise to realise these
//! transitions exactly, and the laws in [`crate::laws`] are proved about them.

use vstd::prelude::*;

use crate::time::{elapsed_ms, HALF_RANGE_MS};

verus! {

/// Abstract state of one watchdog node.
pub struct NodeView {
    /// Timeout interval in milliseconds.
    pub timeout_interval_ms: u32,
    /// Clock sample of the last feed (or registration).
    pub last_touched_timestamp_ms: u32,
    /// Caller-assigned identifier; never interpreted by the registry.
    pub id: u32,
}

/// Abstract state of the registry.
#[verifier::ext_equal]
pub struct RegistryView {
    /// The slot arena: every node ever handed out, indexed by its handle.
    /// Slots survive re-initialisation, as caller-owned records do.
    pub nodes: Seq<NodeView>,
    /// Handles of the currently linked nodes, head (most recently added)
    /// first. A handle occurs at most once.
    pub links: Seq<usize>,
    /// The one-way expiry latch: `false -> true` only, cleared by nothing
    /// but re-initialisation.
    pub expired: bool,
    /// Clock sample frozen at the instant the latch was set; meaningless
    /// while `expired` is false.
    pub expired_at_ms: u32,
}

/// Well-formedness: every linked handle denotes a slot of the arena, and no
/// handle is linked twice.
pub open spec fn reg_wf(r: RegistryView) -> bool {
    &&& forall|i: int| 0 <= i < r.links.len() ==> (r.links[i] as int) < r.nodes.len()
    &&& forall|i: int, j: int| 0 <= i < j < r.links.len() ==> r.links[i] != r.links[j]
}

/// The live expiry test of `check`: strictly more time elapsed since the
/// last feed than the node's interval allows. Equality is still healthy.
pub open spec fn node_expired_at(n: NodeView, now: u32) -> bool {
    elapsed_ms(now, n.last_touched_timestamp_ms) > n.timeout_interval_ms
}

/// The snapshot expiry test of the enumeration, evaluated against the
/// frozen `expired_at_ms` sample. A node whose timestamp was written after
/// the snapshot shows an elapsed reading in the upper half of the 32-bit
/// range; such a node cannot be confirmed to have been expired at the
/// snapshot instant and is not reported.
pub open spec fn node_expired_at_snapshot(n: NodeView, snapshot: u32) -> bool {
    &&& elapsed_ms(snapshot, n.last_touched_timestamp_ms) <= HALF_RANGE_MS
    &&& node_expired_at(n, snapshot)
}

/// Some linked node fails the live expiry test at `now`.
pub open spec fn some_linked_expired(r: RegistryView, now: u32) -> bool {
    exists|i: int|
        0 <= i < r.links.len() && node_expired_at(#[trigger] r.nodes[r.links[i] as int], now)
}

/// Re-initialisation: the membership list and the latch are cleared; the
/// node records themselves are not touched.
pub open spec fn init_view(r: RegistryView) -> RegistryView {
    RegistryView { links: Seq::empty(), expired: false, expired_at_ms: 0, ..r }
}

/// A fresh node slot with all fields zeroed is appended to the arena; its
/// handle is the arena's previous length.
pub open spec fn new_node_view(r: RegistryView) -> RegistryView {
    RegistryView {
        nodes: r.nodes.push(
            NodeView { timeout_interval_ms: 0, last_touched_timestamp_ms: 0, id: 0 },
        ),
        ..r
    }
}

/// Feed: overwrite the node's timestamp, and nothing else. An absent handle
/// is a no-op.
pub open spec fn feed_view(r: RegistryView, wdg: usize, now: u32) -> RegistryView {
    if (wdg as int) < r.nodes.len() {
        RegistryView {
            nodes: r.nodes.update(
                wdg as int,
                NodeView { last_touched_timestamp_ms: now, ..r.nodes[wdg as int] },
            ),
            ..r
        }
    } else {
        r
    }
}

/// Assign the caller's identifier, and nothing else. An absent handle is a
/// no-op.
pub open spec fn assign_id_view(r: RegistryView, wdg: usize, id: u32) -> RegistryView {
    if (wdg as int) < r.nodes.len() {
        RegistryView {
            nodes: r.nodes.update(wdg as int, NodeView { id, ..r.nodes[wdg as int] }),
            ..r
        }
    } else {
        r
    }
}

/// Upsert by identity: the node's timestamp and interval are overwritten
/// either way; a node not yet linked is prepended to the head, a linked one
/// stays where it is and the list is unchanged. The identifier survives.
/// An absent handle is a no-op.
pub open spec fn add_view(r: RegistryView, wdg: usize, timeout_ms: u32, now: u32) -> RegistryView {
    if (wdg as int) < r.nodes.len() {
        RegistryView {
            nodes: r.nodes.update(
                wdg as int,
                NodeView {
                    timeout_interval_ms: timeout_ms,
                    last_touched_timestamp_ms: now,
                    id: r.nodes[wdg as int].id,
                },
            ),
            links: if r.links.contains(wdg) {
                r.links
            } else {
                seq![wdg] + r.links
            },
            ..r
        }
    } else {
        r
    }
}

/// The position of `wdg` in the membership list; meaningful only when the
/// list contains it (and unique under `reg_wf`).
pub open spec fn link_index(links: Seq<usize>, wdg: usize) -> int {
    choose|i: int| 0 <= i < links.len() && links[i] == wdg
}

/// Removal: the node is unlinked if present, a no-op otherwise.
pub open spec fn remove_view(r: RegistryView, wdg: usize) -> RegistryView {
    if r.links.contains(wdg) {
        RegistryView { links: r.links.remove(link_index(r.links, wdg)), ..r }
    } else {
        r
    }
}

/// What `check` returns: the latch if already set, otherwise whether some
/// linked node is over threshold right now.
pub open spec fn check_result(r: RegistryView, now: u32) -> bool {
    r.expired || some_linked_expired(r, now)
}

/// What `check` does to the state: on the first detection the latch is set
/// and `now` is frozen; in every other case nothing changes.
pub open spec fn check_view(r: RegistryView, now: u32) -> RegistryView {
    if !r.expired && some_linked_expired(r, now) {
        RegistryView { expired: true, expired_at_ms: now, ..r }
    } else {
        r
    }
}

/// The first position at or after `start` in the membership list whose node
/// passes the snapshot expiry test against the frozen `expired_at_ms`, or
/// `None` if no such position remains.
pub open spec fn next_expired_position(r: RegistryView, start: int) -> Option<int>
    decreases r.links.len() - start,
{
    if start < 0 || start >= r.links.len() {
        None
    } else if node_expired_at_snapshot(r.nodes[r.links[start] as int], r.expired_at_ms) {
        Some(start)
    } else {
        next_expired_position(r, start + 1)
    }
}

/// If every position in `[start, p)` fails the snapshot test and `p`
/// passes it, then `p` is the first match at or after `start`.
pub proof fn lemma_next_expired_position_found(r: RegistryView, start: int, p: int)
    requires
        0 <= start <= p < r.links.len(),
        forall|j: int|
            start <= j < p ==> !node_expired_at_snapshot(
                #[trigger] r.nodes[r.links[j] as int],
                r.expired_at_ms,
            ),
        node_expired_at_snapshot(r.nodes[r.links[p] as int], r.expired_at_ms),
    ensures
        next_expired_position(r, start) == Some(p),
    decreases p - start,
{
    if start < p {
        lemma_next_expired_position_found(r, start + 1, p);
    }
}

/// If every position at or after `start` fails the snapshot test, there is
/// no match left.
pub proof fn lemma_next_expired_position_none(r: RegistryView, start: int)
    requires
        forall|j: int|
            start <= j < r.links.len() ==> !node_expired_at_snapshot(
                #[trigger] r.nodes[r.links[j] as int],
                r.expired_at_ms,
            ),
    ensures
        next_expired_position(r, start) is None,
    decreases r.links.len() - start,
{
    if 0 <= start < r.links.len() {
        lemma_next_expired_position_none(r, start + 1);
    }
}

} // verus!
