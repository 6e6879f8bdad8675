//! The watchdog registry and its nodes.
//!
//! Nodes live in a slot arena owned by the registry and are named by stable
//! integer handles; membership is a list of handles, head first. The handle
//! plays the role of the node's identity: a handle that denotes no slot is
//! treated as an absent reference, and every operation is a safe no-op on
//! it. Each method's contract says that it realises the matching spec
//! transition of [`crate::model`] exactly.

use vstd::prelude::*;

use crate::model::{
    add_view, assign_id_view, check_result, check_view, feed_view, init_view, link_index,
    lemma_next_expired_position_found, lemma_next_expired_position_none, new_node_view,
    next_expired_position, node_expired_at, node_expired_at_snapshot, reg_wf, remove_view,
    some_linked_expired, NodeView, RegistryView,
};
use crate::time::{elapsed_since, HALF_RANGE_MS};

verus! {

/// A single watchdog node: one task's liveness timer.
///
/// A node is a plain record; all mutation flows through the registry that
/// owns its slot.
#[derive(Clone, Copy)]
pub struct WatchdogNode {
    timeout_interval_ms: u32,
    last_touched_timestamp_ms: u32,
    id: u32,
}

impl View for WatchdogNode {
    type V = NodeView;

    closed spec fn view(&self) -> NodeView {
        NodeView {
            timeout_interval_ms: self.timeout_interval_ms,
            last_touched_timestamp_ms: self.last_touched_timestamp_ms,
            id: self.id,
        }
    }
}

impl Default for WatchdogNode {
    /// A fresh node with every field zeroed.
    fn default() -> (n: WatchdogNode)
        ensures
            n@ == (NodeView { timeout_interval_ms: 0, last_touched_timestamp_ms: 0, id: 0 }),
    {
        WatchdogNode { timeout_interval_ms: 0, last_touched_timestamp_ms: 0, id: 0 }
    }
}

impl WatchdogNode {
    /// The caller-assigned identifier of this node. Defaults to `0` and is
    /// never interpreted or changed by the registry itself.
    pub fn id(&self) -> (id: u32)
        ensures
            id == self@.id,
    {
        self.id
    }

    /// The node's timeout interval in milliseconds.
    pub fn timeout_interval_ms(&self) -> (t: u32)
        ensures
            t == self@.timeout_interval_ms,
    {
        self.timeout_interval_ms
    }

    /// The clock sample of the node's last feed or registration.
    pub fn last_touched_timestamp_ms(&self) -> (t: u32)
        ensures
            t == self@.last_touched_timestamp_ms,
    {
        self.last_touched_timestamp_ms
    }
}

/// Resumable position of an expired-node enumeration. The caller creates a
/// start-of-list cursor once, then hands it to every
/// [`WatchdogRegistry::next_expired`] call of one sweep.
pub struct ExpiredCursor {
    next_pos: usize,
}

impl View for ExpiredCursor {
    type V = int;

    closed spec fn view(&self) -> int {
        self.next_pos as int
    }
}

impl ExpiredCursor {
    /// A cursor standing at the start of the membership list.
    pub fn start() -> (c: ExpiredCursor)
        ensures
            c@ == 0,
    {
        ExpiredCursor { next_pos: 0 }
    }
}

/// The registry: the slot arena of nodes, the membership list, and the
/// expiry latch.
pub struct WatchdogRegistry {
    nodes: Vec<WatchdogNode>,
    links: Vec<usize>,
    expired: bool,
    expired_at_ms: u32,
}

impl View for WatchdogRegistry {
    type V = RegistryView;

    closed spec fn view(&self) -> RegistryView {
        RegistryView {
            nodes: self.nodes@.map_values(|n: WatchdogNode| n@),
            links: self.links@,
            expired: self.expired,
            expired_at_ms: self.expired_at_ms,
        }
    }
}

impl WatchdogRegistry {
    /// Well-formedness of the registry: the membership list names valid
    /// slots, each at most once.
    pub open spec fn wf(&self) -> bool {
        reg_wf(self@)
    }

    /// A new, empty registry: no slots, nothing linked, latch clear.
    pub fn new() -> (r: WatchdogRegistry)
        ensures
            r@ == (RegistryView {
                nodes: Seq::empty(),
                links: Seq::empty(),
                expired: false,
                expired_at_ms: 0,
            }),
            r.wf(),
    {
        let r = WatchdogRegistry {
            nodes: Vec::new(),
            links: Vec::new(),
            expired: false,
            expired_at_ms: 0,
        };
        proof {
            assert(r@ =~= RegistryView {
                nodes: Seq::empty(),
                links: Seq::empty(),
                expired: false,
                expired_at_ms: 0,
            });
        }
        r
    }

    /// Re-initialise: unlink every node and clear the latch. The node slots
    /// themselves are untouched, as the caller-owned records they stand for
    /// would be.
    pub fn init(&mut self)
        ensures
            final(self)@ == init_view(old(self)@),
            final(self).wf(),
    {
        self.links.clear();
        self.expired = false;
        self.expired_at_ms = 0;
        proof {
            assert(self@ =~= init_view(old(self)@));
        }
    }

    /// Whether the registry has latched into the expired state. A cheap
    /// field read; no traversal.
    pub fn is_expired(&self) -> (e: bool)
        ensures
            e == self@.expired,
    {
        self.expired
    }

    /// The clock sample frozen at the instant of the first detected
    /// expiration; meaningless while the latch is clear.
    pub fn expired_at_ms(&self) -> (t: u32)
        ensures
            t == self@.expired_at_ms,
    {
        self.expired_at_ms
    }

    /// Hand out a fresh node slot, all fields zeroed and not linked. The
    /// returned handle stays valid for the registry's whole lifetime.
    pub fn new_node(&mut self) -> (wdg: usize)
        requires
            old(self).wf(),
        ensures
            final(self)@ == new_node_view(old(self)@),
            wdg == old(self)@.nodes.len(),
            final(self).wf(),
    {
        let wdg = self.nodes.len();
        self.nodes.push(WatchdogNode::default());
        proof {
            assert(self@ =~= new_node_view(old(self)@));
        }
        wdg
    }

    /// A copy of the node in the given slot, or `None` for an absent
    /// handle.
    pub fn node(&self, wdg: usize) -> (n: Option<WatchdogNode>)
        ensures
            match n {
                Some(nd) => (wdg as int) < self@.nodes.len() && nd@ == self@.nodes[wdg as int],
                None => (wdg as int) >= self@.nodes.len(),
            },
    {
        if wdg < self.nodes.len() {
            Some(self.nodes[wdg])
        } else {
            None
        }
    }

    /// How many nodes are currently linked.
    pub fn linked_count(&self) -> (c: usize)
        ensures
            c == self@.links.len(),
    {
        self.links.len()
    }

    /// The handle at the given position of the membership list, position 0
    /// being the head, or `None` past its end.
    pub fn linked_at(&self, pos: usize) -> (wdg: Option<usize>)
        ensures
            match wdg {
                Some(h) => (pos as int) < self@.links.len() && h == self@.links[pos as int],
                None => (pos as int) >= self@.links.len(),
            },
    {
        if pos < self.links.len() {
            Some(self.links[pos])
        } else {
            None
        }
    }

    /// Whether the node with the given handle is currently linked.
    pub fn is_linked(&self, wdg: usize) -> (linked: bool)
        ensures
            linked == self@.links.contains(wdg),
    {
        let found = self.find_link(wdg);
        proof {
            if found is Some {
                assert(self@.links.contains(wdg));
            }
        }
        found.is_some()
    }

    /// Position of `wdg` in the membership list, or `None` if it is not
    /// linked.
    fn find_link(&self, wdg: usize) -> (pos: Option<usize>)
        ensures
            match pos {
                Some(p) => (p as int) < self@.links.len() && self@.links[p as int] == wdg,
                None => !self@.links.contains(wdg),
            },
    {
        let n = self.links.len();
        let mut i: usize = 0;
        while i < n
            invariant
                n == self@.links.len(),
                i <= n,
                forall|j: int| 0 <= j < i ==> self@.links[j] != wdg,
            decreases n - i,
        {
            if self.links[i] == wdg {
                return Some(i);
            }
            i += 1;
        }
        None
    }

    /// Register the node with the given timeout: upsert by identity.
    ///
    /// If the node is already linked the call acts as a feed combined with
    /// a timeout update and the membership list is unchanged; otherwise the
    /// node is prepended to the head. Either way `last_touched_timestamp_ms`
    /// becomes `now`, `timeout_interval_ms` becomes `timeout_ms`, and the
    /// caller-assigned identifier survives untouched. An absent handle is a
    /// no-op.
    pub fn add(&mut self, wdg: usize, timeout_ms: u32, now: u32)
        requires
            old(self).wf(),
        ensures
            final(self)@ == add_view(old(self)@, wdg, timeout_ms, now),
            final(self).wf(),
    {
        if wdg >= self.nodes.len() {
            return;
        }
        let pos = self.find_link(wdg);
        {
            let node = &mut self.nodes[wdg];
            node.last_touched_timestamp_ms = now;
            node.timeout_interval_ms = timeout_ms;
        }
        proof {
            let r0 = old(self)@;
            match pos {
                Some(p) => {
                    assert(r0.links.contains(wdg)) by {
                        assert(r0.links[p as int] == wdg);
                    }
                },
                None => {
                    assert(!r0.links.contains(wdg));
                },
            }
        }
        if pos.is_none() {
            self.links.insert(0, wdg);
            proof {
                assert(self@.links =~= seq![wdg] + old(self)@.links);
            }
        }
        proof {
            let r0 = old(self)@;
            assert(self@ =~= add_view(r0, wdg, timeout_ms, now));
            if !r0.links.contains(wdg) {
                assert forall|i: int, j: int|
                    0 <= i < j < self@.links.len() implies self@.links[i] != self@.links[j] by {
                    if i == 0 {
                        assert(self@.links[j] == r0.links[j - 1]);
                    }
                }
            }
        }
    }

    /// Unlink the node if it is linked; otherwise, including on a handle
    /// already removed or never registered, do nothing. Removal is
    /// idempotent.
    pub fn remove(&mut self, wdg: usize)
        requires
            old(self).wf(),
        ensures
            final(self)@ == remove_view(old(self)@, wdg),
            final(self).wf(),
    {
        let pos = self.find_link(wdg);
        match pos {
            Some(p) => {
                self.links.remove(p);
                proof {
                    let r0 = old(self)@;
                    assert(r0.links.contains(wdg)) by {
                        assert(r0.links[p as int] == wdg);
                    }
                    let ci = link_index(r0.links, wdg);
                    assert(0 <= ci < r0.links.len() && r0.links[ci] == wdg);
                    assert(ci == p as int) by {
                        if ci < p as int {
                            assert(r0.links[ci] != r0.links[p as int]);
                        } else if ci > p as int {
                            assert(r0.links[p as int] != r0.links[ci]);
                        }
                    }
                    assert(self@ =~= remove_view(r0, wdg));
                    assert forall|i: int|
                        0 <= i < self@.links.len() implies (self@.links[i] as int)
                        < self@.nodes.len() by {
                        if i < p as int {
                            assert(self@.links[i] == r0.links[i]);
                        } else {
                            assert(self@.links[i] == r0.links[i + 1]);
                        }
                    }
                    assert forall|i: int, j: int|
                        0 <= i < j < self@.links.len() implies self@.links[i]
                        != self@.links[j] by {
                        let i0: int = if i < p as int {
                            i
                        } else {
                            i + 1
                        };
                        let j0: int = if j < p as int {
                            j
                        } else {
                            j + 1
                        };
                        assert(self@.links[i] == r0.links[i0]);
                        assert(self@.links[j] == r0.links[j0]);
                    }
                }
            },
            None => {
                proof {
                    assert(self@ =~= remove_view(old(self)@, wdg));
                }
            },
        }
    }

    /// Feed: overwrite the node's last-touched timestamp with `now`. No
    /// membership test is made and no registry state is touched; feeding an
    /// unlinked or absent node is harmless.
    pub fn feed(&mut self, wdg: usize, now: u32)
        requires
            old(self).wf(),
        ensures
            final(self)@ == feed_view(old(self)@, wdg, now),
            final(self).wf(),
    {
        if wdg < self.nodes.len() {
            let node = &mut self.nodes[wdg];
            node.last_touched_timestamp_ms = now;
        }
        proof {
            assert(self@ =~= feed_view(old(self)@, wdg, now));
        }
    }

    /// Assign the caller's identifier to the node. Valid before or after
    /// registration; never observed by the expiry logic itself, only
    /// reported by the enumeration.
    pub fn assign_id(&mut self, wdg: usize, id: u32)
        requires
            old(self).wf(),
        ensures
            final(self)@ == assign_id_view(old(self)@, wdg, id),
            final(self).wf(),
    {
        if wdg < self.nodes.len() {
            let node = &mut self.nodes[wdg];
            node.id = id;
        }
        proof {
            assert(self@ =~= assign_id_view(old(self)@, wdg, id));
        }
    }

    /// Check every linked node for expiration against the clock sample
    /// `now`.
    ///
    /// If the registry has already latched, the latch is returned at once
    /// and nothing is traversed. Otherwise the first node found strictly
    /// over its threshold latches the registry, freezing `now` in
    /// `expired_at_ms`; if no node is over threshold, the registry is left
    /// unlatched and the check is healthy.
    pub fn check(&mut self, now: u32) -> (expired: bool)
        requires
            old(self).wf(),
        ensures
            final(self)@ == check_view(old(self)@, now),
            expired == check_result(old(self)@, now),
            final(self).wf(),
    {
        if self.expired {
            return true;
        }
        let n = self.links.len();
        let mut i: usize = 0;
        while i < n
            invariant
                old(self).wf(),
                self@ == old(self)@,
                !self.expired,
                n == self@.links.len(),
                i <= n,
                forall|j: int|
                    0 <= j < i ==> !node_expired_at(
                        #[trigger] self@.nodes[self@.links[j] as int],
                        now,
                    ),
            decreases n - i,
        {
            let h = self.links[i];
            let node = &self.nodes[h];
            let e = elapsed_since(now, node.last_touched_timestamp_ms);
            if e > node.timeout_interval_ms {
                proof {
                    assert(node_expired_at(self@.nodes[self@.links[i as int] as int], now));
                    assert(some_linked_expired(self@, now));
                }
                self.expired = true;
                self.expired_at_ms = now;
                proof {
                    assert(self@ =~= check_view(old(self)@, now));
                }
                return true;
            }
            i += 1;
        }
        proof {
            assert(!some_linked_expired(self@, now));
        }
        false
    }

    /// Yield the next node that was over threshold at the frozen
    /// `expired_at_ms` snapshot, resuming from the cursor's position, and
    /// advance the cursor past it; `None` once no match remains.
    ///
    /// The scan is evaluated strictly against the snapshot taken by the
    /// detecting [`check`](Self::check), never the live clock, so every
    /// call of one sweep sees the same instant. On an unlatched registry
    /// nothing is yielded. A node whose timestamp was written after the
    /// snapshot cannot be confirmed to have been expired at that instant
    /// and is skipped.
    pub fn next_expired(&self, cursor: &mut ExpiredCursor) -> (found: Option<u32>)
        requires
            self.wf(),
        ensures
            !self@.expired ==> found is None && final(cursor)@ == old(cursor)@,
            self@.expired ==> match next_expired_position(self@, old(cursor)@) {
                Some(p) => found == Some(self@.nodes[self@.links[p] as int].id)
                    && final(cursor)@ == p + 1,
                None => found is None && final(cursor)@ == old(cursor)@,
            },
    {
        if !self.expired {
            return None;
        }
        let snapshot = self.expired_at_ms;
        let n = self.links.len();
        let mut i: usize = cursor.next_pos;
        while i < n
            invariant
                self.wf(),
                self@.expired,
                snapshot == self@.expired_at_ms,
                n == self@.links.len(),
                cursor@ == old(cursor)@,
                old(cursor)@ <= i,
                forall|j: int|
                    old(cursor)@ <= j < i ==> !node_expired_at_snapshot(
                        #[trigger] self@.nodes[self@.links[j] as int],
                        snapshot,
                    ),
            decreases n - i,
        {
            let h = self.links[i];
            let node = &self.nodes[h];
            let e = elapsed_since(snapshot, node.last_touched_timestamp_ms);
            if e <= HALF_RANGE_MS && e > node.timeout_interval_ms {
                proof {
                    lemma_next_expired_position_found(self@, old(cursor)@, i as int);
                }
                cursor.next_pos = i + 1;
                return Some(node.id);
            }
            i += 1;
        }
        proof {
            lemma_next_expired_position_none(self@, old(cursor)@);
        }
        None
    }
}

} // verus!
