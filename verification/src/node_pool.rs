//! The connection pool's accounting: the detachable connection slot of a
//! pool entry, and the `cardano_node_connections` gauge that moves once
//! per connection, up on create and down on evict.

use vstd::prelude::*;

verus! {

/// A pool entry: the one live connection, held in a detachable slot so
/// that eviction can hand it out by value for its consuming teardown.
/// The slot is occupied for the entry's whole public lifetime; it
/// empties exactly once, in `detach`, after which the entry is spent.
pub struct PoolEntry<C> {
    pub slot: Option<C>,
}

impl<C> PoolEntry<C> {
    /// The entry's invariant while callers can see it.
    pub open spec fn occupied(&self) -> bool {
        self.slot is Some
    }

    /// Wraps a fresh connection; the slot starts occupied.
    pub fn new(conn: C) -> (r: Self)
        ensures
            r.occupied(),
            r.slot == Some(conn),
    {
        PoolEntry { slot: Some(conn) }
    }

    /// The connection, for use during a checkout.
    pub fn conn(&self) -> (r: &C)
        requires
            self.occupied(),
        ensures
            Some(*r) == self.slot,
    {
        self.slot.as_ref().unwrap()
    }

    /// Empties the slot, handing the connection out by value for the
    /// consuming teardown. The entry is consumed with it: no caller can
    /// see an emptied entry.
    pub fn detach(self) -> (r: C)
        requires
            self.occupied(),
        ensures
            Some(r) == self.slot,
    {
        self.slot.unwrap()
    }
}

/// The pool's gauge accounting: `gauge` mirrors the
/// `cardano_node_connections` metric and always equals the number of
/// live connections.
pub struct PoolGauge {
    pub gauge: u64,
    pub live: u64,
}

impl PoolGauge {
    /// The gauge tracks the live count exactly.
    pub open spec fn wf(&self) -> bool {
        self.gauge == self.live
    }

    /// An empty pool: no connections, gauge at zero, as the recorder
    /// publishes before the first connect.
    pub fn new() -> (r: Self)
        ensures
            r.wf(),
            r.gauge == 0,
    {
        PoolGauge { gauge: 0, live: 0 }
    }

    /// One successful create: the gauge goes up exactly once for the new
    /// connection.
    pub fn on_create(&mut self)
        requires
            old(self).wf(),
            old(self).live < u64::MAX,
        ensures
            final(self).wf(),
            final(self).gauge == old(self).gauge + 1,
            final(self).live == old(self).live + 1,
    {
        self.gauge = self.gauge + 1;
        self.live = self.live + 1;
    }

    /// One eviction: the gauge goes down exactly once for the connection
    /// that leaves.
    pub fn on_evict(&mut self)
        requires
            old(self).wf(),
            old(self).live > 0,
        ensures
            final(self).wf(),
            final(self).gauge == old(self).gauge - 1,
            final(self).live == old(self).live - 1,
    {
        self.gauge = self.gauge - 1;
        self.live = self.live - 1;
    }
}

/// A gauge movement: a connection created, or one evicted.
pub enum GaugeEvent {
    Created,
    Evicted,
}

/// The number of live connections after a run of events, counted
/// directly.
pub open spec fn sp_live_after(live: int, t: Seq<GaugeEvent>) -> int
    decreases t.len(),
{
    if t.len() == 0 {
        live
    } else {
        match t[0] {
            GaugeEvent::Created => sp_live_after(live + 1, t.drop_first()),
            GaugeEvent::Evicted => sp_live_after(live - 1, t.drop_first()),
        }
    }
}

/// The gauge moves exactly once per connection: up on its create, down
/// on its evict, so after any run it equals the number of connections
/// created and not yet evicted.
pub proof fn lemma_gauge_counts_connections(g: PoolGauge, t: Seq<GaugeEvent>)
    requires
        g.wf(),
    ensures
        sp_live_after(g.gauge as int, t) == g.gauge + t.filter(|e: GaugeEvent| e is Created).len()
            - t.filter(|e: GaugeEvent| e is Evicted).len(),
{
    lemma_counts(g.gauge as int, t);
}

proof fn lemma_counts(start: int, t: Seq<GaugeEvent>)
    ensures
        sp_live_after(start, t) == start + t.filter(|e: GaugeEvent| e is Created).len() - t.filter(
            |e: GaugeEvent| e is Evicted,
        ).len(),
    decreases t.len(),
{
    let created = |e: GaugeEvent| e is Created;
    let evicted = |e: GaugeEvent| e is Evicted;
    if t.len() == 0 {
        assert(t.filter(created) =~= Seq::<GaugeEvent>::empty());
        assert(t.filter(evicted) =~= Seq::<GaugeEvent>::empty());
    } else {
        let rest = t.drop_first();
        seq_filter_head(t, created);
        seq_filter_head(t, evicted);
        match t[0] {
            GaugeEvent::Created => {
                lemma_counts(start + 1, rest);
            },
            GaugeEvent::Evicted => {
                lemma_counts(start - 1, rest);
            },
        }
    }
}

/// Filtering distributes over peeling the head element.
proof fn seq_filter_head<A>(t: Seq<A>, f: spec_fn(A) -> bool)
    requires
        t.len() > 0,
    ensures
        t.filter(f).len() == t.drop_first().filter(f).len() + (if f(t[0]) {
            1int
        } else {
            0int
        }),
    decreases t.len(),
{
    reveal(Seq::filter);
    if t.len() == 1 {
        assert(t.drop_last() =~= Seq::<A>::empty());
        assert(t.drop_first() =~= Seq::<A>::empty());
    } else {
        seq_filter_head(t.drop_last(), f);
        assert(t.drop_last().drop_first() =~= t.drop_first().drop_last());
        assert(t.drop_last()[0] == t[0]);
        assert(t.drop_first().last() == t.last());
    }
}

} // verus!
verus! {

/// What the pool needs to open a connection: the node's socket path and
/// the network magic for the handshake.
pub struct NodePoolManager {
    pub network_magic: u64,
    pub socket_path: String,
}

impl NodePoolManager {
    /// A manager for the given socket and network.
    pub fn new(network_magic: u64, socket_path: String) -> (r: Self)
        ensures
            r.network_magic == network_magic,
            r.socket_path == socket_path,
    {
        NodePoolManager { network_magic, socket_path }
    }
}

} // verus!
