//! The nodes of the mesh that the bot knows of.
use vstd::prelude::*;
use std::collections::HashMap;
use crate::utils::clock::unix_now_secs;

verus! {

broadcast use vstd::std_specs::hash::group_hash_axioms;

/// A node counts as online when heard within this many seconds (2 hours).
pub const ONLINE_THRESHOLD_SECS: u32 = 7200;

/// What the tracker keeps of a node: its number, when it was last heard
/// (seconds since the Unix epoch, 0 when never), and its long name (empty
/// when the node has not told it).
#[derive(Debug, Clone)]
pub struct NodeRecord {
    pub num: u32,
    pub last_heard: u32,
    pub long_name: String,
}

/// Whether a node counts as online at time `now`: it has been heard, and
/// no more than `ONLINE_THRESHOLD_SECS` ago (a time in the future counts as
/// now).
pub open spec fn is_online(node: NodeRecord, now: u32) -> bool {
    node.last_heard != 0 && (if now >= node.last_heard {
        now - node.last_heard
    } else {
        0
    }) <= ONLINE_THRESHOLD_SECS
}

/// Whether the node filed under a number is online at `now`.
pub open spec fn online_at(nodes: Map<u32, NodeRecord>, now: u32) -> spec_fn(u32) -> bool {
    |k: u32| is_online(nodes[k], now)
}

/// The number of nodes in `nodes` that are online at `now`.
pub open spec fn online_count(nodes: Map<u32, NodeRecord>, now: u32) -> nat {
    nodes.dom().filter(online_at(nodes, now)).len()
}

/// Counting the elements of a duplicate-free sequence that satisfy `p` gives
/// the size of the set of its elements that satisfy `p`.
pub proof fn lemma_filter_count_matches_set(s: Seq<u32>, p: spec_fn(u32) -> bool)
    requires
        s.no_duplicates(),
    ensures
        s.filter(p).len() == s.to_set().filter(p).len(),
        s.filter(p).no_duplicates(),
    decreases s.len(),
{
    broadcast use vstd::seq_lib::group_seq_properties;
    broadcast use vstd::set::group_set_axioms;
    reveal(Seq::filter);
    if s.len() == 0 {
        assert(s.to_set().filter(p) =~= Set::<u32>::empty());
    } else {
        let t = s.drop_last();
        let x = s.last();
        assert(t.no_duplicates());
        lemma_filter_count_matches_set(t, p);
        assert(!t.contains(x)) by {
            if t.contains(x) {
                let i = choose|i: int| 0 <= i < t.len() && t[i] == x;
                assert(s[i] == s[s.len() - 1]);
            }
        }
        assert(s.to_set() =~= t.to_set().insert(x)) by {
            assert(s =~= t.push(x));
        }
        if t.filter(p).contains(x) {
            t.lemma_filter_contains_rev(p, x);
        }
        if p(x) {
            assert(s.to_set().filter(p) =~= t.to_set().filter(p).insert(x));
            assert(!t.to_set().filter(p).contains(x));
            assert(s.filter(p) == t.filter(p).push(x));
            assert(s.filter(p).no_duplicates()) by {
                let f = t.filter(p);
                assert forall|i: int, j: int| 0 <= i < j < f.push(x).len() implies f.push(x)[i] != f.push(x)[j] by {
                    if j == f.len() {
                        assert(f.contains(f[i]));
                    }
                }
            }
        } else {
            assert(s.to_set().filter(p) =~= t.to_set().filter(p));
            assert(s.filter(p) == t.filter(p));
        }
    }
}

/// The long name the tracker knows for the node `num`, when it knows one.
pub open spec fn known_name(nodes: Map<u32, NodeRecord>, num: u32) -> Option<Seq<char>> {
    if nodes.contains_key(num) && nodes[num].long_name@.len() > 0 {
        Some(nodes[num].long_name@)
    } else {
        None
    }
}

/// The tracker knows finitely many nodes.
pub proof fn lemma_known_finite(t: &NodeTracker)
    ensures
        t.known().dom().finite(),
{
}

/// No more nodes are online than are known.
pub proof fn lemma_online_at_most_known(t: &NodeTracker, now: u32)
    ensures
        online_count(t.known(), now) <= t.known().len(),
{
    broadcast use vstd::set::group_set_axioms;
    let nodes = t.known();
    lemma_known_finite(t);
    vstd::set_lib::lemma_len_subset(nodes.dom().filter(online_at(nodes, now)), nodes.dom());
}

/// After a node is updated (`after` is `before` with `node` put in), looking
/// it up gives the new record, the other nodes are unchanged, and the count
/// grows by one exactly when the node was new.
pub proof fn lemma_update_then_lookup(before: &NodeTracker, after: &NodeTracker, node: NodeRecord, other: u32)
    requires
        after.known() == before.known().insert(node.num, node),
        other != node.num,
    ensures
        after.known().contains_key(node.num),
        after.known()[node.num] == node,
        after.known().contains_key(other) == before.known().contains_key(other),
        before.known().contains_key(other) ==> after.known()[other] == before.known()[other],
        after.known().len() == if before.known().contains_key(node.num) {
            before.known().len()
        } else {
            before.known().len() + 1
        },
{
    broadcast use vstd::set::group_set_axioms;
    broadcast use vstd::map::group_map_axioms;
    let nodes = before.known();
    lemma_known_finite(before);
    if nodes.contains_key(node.num) {
        assert(nodes.insert(node.num, node).dom() =~= nodes.dom());
    }
}

/// Tracks nodes in the mesh network
pub struct NodeTracker {
    /// Our own node number
    my_node_num: Option<u32>,
    /// Map of node_num to what is known of the node
    nodes: HashMap<u32, NodeRecord>,
}

impl NodeTracker {
    /// Our own node number, once set.
    pub closed spec fn own_num(&self) -> Option<u32> {
        self.my_node_num
    }

    /// The known nodes, by number.
    pub closed spec fn known(&self) -> Map<u32, NodeRecord> {
        self.nodes@
    }

    /// Each node is filed under its own number.
    #[verifier::type_invariant]
    closed spec fn filed_by_num(&self) -> bool {
        forall|k: u32| #[trigger] self.nodes@.contains_key(k) ==> self.nodes@[k].num == k
    }

    pub fn new() -> (r: Self)
        ensures
            r.own_num() is None,
            r.known() == Map::<u32, NodeRecord>::empty(),
    {
        Self { my_node_num: None, nodes: HashMap::new() }
    }

    /// Set our own node number (from MyNodeInfo)
    pub fn set_my_node_num(&mut self, num: u32)
        ensures
            final(self).own_num() == Some(num),
            final(self).known() == old(self).known(),
    {
        proof {
            use_type_invariant(&*self);
        }
        self.my_node_num = Some(num);
    }

    /// Get our own node number
    pub fn my_node_num(&self) -> (r: Option<u32>)
        ensures
            r == self.own_num(),
    {
        self.my_node_num
    }

    /// Update or add a node to the tracker
    pub fn update_node(&mut self, node: NodeRecord)
        ensures
            final(self).known() == old(self).known().insert(node.num, node),
            final(self).own_num() == old(self).own_num(),
    {
        proof {
            use_type_invariant(&*self);
        }
        let mut nodes = HashMap::new();
        std::mem::swap(&mut nodes, &mut self.nodes);
        let num = node.num;
        nodes.insert(num, node);
        self.nodes = nodes;
    }

    /// Get total number of nodes we know about
    pub fn total_nodes(&self) -> (r: usize)
        ensures
            r == self.known().len(),
    {
        self.nodes.len()
    }

    /// Get number of nodes heard within `ONLINE_THRESHOLD_SECS` of `now`
    pub fn online_nodes_at(&self, now: u32) -> (r: usize)
        ensures
            r == online_count(self.known(), now),
    {
        broadcast use vstd::std_specs::hash::axiom_spec_keys_iter;
        let ghost m = self.nodes@;
        let ghost p = online_at(m, now);
        let total = self.nodes.len();
        let mut count: usize = 0;
        let ghost mut seen: Seq<u32> = Seq::empty();
        for k in it: self.nodes.keys()
            invariant
                m == self.nodes@,
                p == online_at(m, now),
                total == m.dom().len(),
                it.seq().len() == m.dom().len(),
                it.seq().unref().to_set() == m.dom(),
                it.seq().unref().no_duplicates(),
                seen == it.seq().unref().take(it.index()),
                count == seen.filter(p).len(),
                count <= it.index(),
                it.index() == it.seq().len() ==> seen.to_set() == m.dom(),
        {
            proof {
                assert(it.seq().unref().take(it.index() + 1) =~= seen.push(*k));
                assert(it.seq().unref().contains(*k));
                assert(seen.push(*k).drop_last() =~= seen);
                reveal(Seq::filter);
                assert(seen.push(*k).filter(p) == if p(*k) {
                    seen.filter(p).push(*k)
                } else {
                    seen.filter(p)
                });
                seen = seen.push(*k);
            }
            let found = self.nodes.get(k);
            proof {
                assert(found matches Some(node) && *node == m[*k]);
            }
            if let Some(node) = found {
                let online = node.last_heard != 0 && now.saturating_sub(node.last_heard) <= ONLINE_THRESHOLD_SECS;
                assert(online == p(*k));
                if online {
                    count += 1;
                }
            }
            proof {
                assert(it.seq().unref().take(it.seq().len() as int) =~= it.seq().unref());
            }
        }
        proof {
            assert(seen.no_duplicates());
            lemma_filter_count_matches_set(seen, p);
        }
        count
    }

    /// Get number of nodes heard within the last 2 hours, by the system
    /// clock.
    pub fn online_nodes(&self) -> (r: usize)
        ensures
            exists|now: u32| r == online_count(self.known(), now),
    {
        let now = unix_now_secs() as u32;
        self.online_nodes_at(now)
    }

    /// Get all nodes
    pub fn all_nodes(&self) -> (r: Vec<&NodeRecord>)
        ensures
            r.len() == self.known().len(),
            forall|i: int| 0 <= i < r.len() ==> self.known().contains_key(#[trigger] r[i].num) && self.known()[r[i].num] == r[i],
            forall|k: u32| #[trigger] self.known().contains_key(k) ==> exists|i: int| 0 <= i < r.len() && r[i].num == k,
            forall|i: int, j: int| 0 <= i < j < r.len() ==> r[i].num != r[j].num,
    {
        broadcast use vstd::std_specs::hash::axiom_spec_keys_iter;
        proof {
            use_type_invariant(self);
        }
        let ghost m = self.nodes@;
        let mut out: Vec<&NodeRecord> = Vec::new();
        let ghost mut seen: Seq<u32> = Seq::empty();
        for k in it: self.nodes.keys()
            invariant
                m == self.nodes@,
                forall|k: u32| #[trigger] m.contains_key(k) ==> m[k].num == k,
                it.seq().len() == m.dom().len(),
                it.seq().unref().to_set() == m.dom(),
                it.seq().unref().no_duplicates(),
                seen == it.seq().unref().take(it.index()),
                out.len() == seen.len(),
                forall|i: int| 0 <= i < out.len() ==> #[trigger] out[i] == m[seen[i]] && m.contains_key(seen[i]),
                it.index() == it.seq().len() ==> seen.to_set() == m.dom(),
        {
            proof {
                assert(it.seq().unref().take(it.index() + 1) =~= seen.push(*k));
                assert(it.seq().unref().contains(*k));
                seen = seen.push(*k);
            }
            let found = self.nodes.get(k);
            proof {
                assert(found matches Some(node) && *node == m[*k]);
            }
            if let Some(node) = found {
                out.push(node);
            }
            proof {
                assert(it.seq().unref().take(it.seq().len() as int) =~= it.seq().unref());
            }
        }
        proof {
            broadcast use vstd::seq_lib::group_seq_properties;
            assert(seen.no_duplicates());
            seen.unique_seq_to_set();
            assert forall|i: int| 0 <= i < out.len() implies out[i].num == seen[i] by {
                assert(out[i] == m[seen[i]]);
            }
            assert forall|k: u32| #[trigger] m.contains_key(k) implies exists|i: int| 0 <= i < out.len() && out[i].num == k by {
                assert(seen.to_set().contains(k));
                let i = choose|i: int| 0 <= i < seen.len() && seen[i] == k;
                assert(out[i].num == k);
            }
            assert forall|i: int, j: int| 0 <= i < j < out.len() implies out[i].num != out[j].num by {
                assert(out[i].num == seen[i] && out[j].num == seen[j]);
            }
        }
        out
    }

    /// Get a specific node by node number
    pub fn get_node(&self, node_num: u32) -> (r: Option<&NodeRecord>)
        ensures
            r is Some <==> self.known().contains_key(node_num),
            r matches Some(n) ==> *n == self.known()[node_num],
    {
        self.nodes.get(&node_num)
    }
}

impl Default for NodeTracker {
    fn default() -> (r: Self)
        ensures
            r.own_num() is None,
            r.known() == Map::<u32, NodeRecord>::empty(),
    {
        Self::new()
    }
}

} // verus!
