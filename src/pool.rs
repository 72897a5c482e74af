use vstd::prelude::*;
use crate::table::Table;

verus! {

/// The pool's knowledge of one endpoint key.
#[derive(Debug, Clone, Copy, PartialEq, Eq, Structural)]
pub enum Slot {
    /// A caller is establishing the connection; others wait for it.
    Connecting,
    /// The connection with this id is live and shared.
    Ready(u64),
}

/// What a caller of `get_or_create` is to do.
#[derive(Debug, Clone, Copy, PartialEq, Eq, Structural)]
pub enum PoolDecision {
    /// Use the live connection with this id.
    Reuse(u64),
    /// Establish the connection, then publish or abandon it.
    Connect,
    /// Another caller is establishing it: wait and ask again.
    Wait,
}

pub type Slots = Map<Seq<char>, Slot>;

pub open spec fn decision(m: Slots, key: Seq<char>) -> PoolDecision {
    if !m.contains_key(key) {
        PoolDecision::Connect
    } else {
        match m[key] {
            Slot::Ready(id) => PoolDecision::Reuse(id),
            Slot::Connecting => PoolDecision::Wait,
        }
    }
}

/// The slots after a lookup: a miss reserves the key.
pub open spec fn after_lookup(m: Slots, key: Seq<char>) -> Slots {
    if !m.contains_key(key) {
        m.insert(key, Slot::Connecting)
    } else {
        m
    }
}

/// The slots after the connection of a reserved key is published as `id`.
pub open spec fn published(m: Slots, key: Seq<char>, id: u64) -> Slots {
    if m.contains_key(key) && m[key] == Slot::Connecting {
        m.insert(key, Slot::Ready(id))
    } else {
        m
    }
}

/// The slots after a reserved key's connection attempt failed.
pub open spec fn abandoned(m: Slots, key: Seq<char>) -> Slots {
    if m.contains_key(key) && m[key] == Slot::Connecting {
        m.remove(key)
    } else {
        m
    }
}

/// Every published id is below `next_id`, and two keys never share one.
pub open spec fn slots_consistent(m: Slots, next_id: u64) -> bool {
    &&& forall|k: Seq<char>|
        #[trigger] m.contains_key(k) ==> (m[k] matches Slot::Ready(id) ==> id < next_id)
    &&& forall|k1: Seq<char>, k2: Seq<char>|
        m.contains_key(k1) && m.contains_key(k2) && k1 != k2 && #[trigger] m[k1] is Ready
            && #[trigger] m[k2] is Ready ==> m[k1]->Ready_0 != m[k2]->Ready_0
}

/// Maps each endpoint key to at most one connection. The lock that guards
/// it is held for one decision at a time, never across a handshake.
pub struct ConnectionPool {
    slots: Table<Slot>,
    next_id: u64,
}

impl ConnectionPool {
    pub closed spec fn view(&self) -> Slots {
        self.slots@
    }

    /// The id that the next published connection gets.
    pub closed spec fn next_id(&self) -> u64 {
        self.next_id
    }

    pub closed spec fn wf(&self) -> bool {
        &&& self.slots.wf()
        &&& slots_consistent(self.slots@, self.next_id)
    }

    pub fn new() -> (r: Self)
        ensures
            r.wf(),
            slots_consistent(r@, r.next_id()),
            r@ == Slots::empty(),
            r.next_id() == 0,
    {
        ConnectionPool { slots: Table::new(), next_id: 0 }
    }

    /// How many connections have been published so far.
    pub fn published_count(&self) -> (r: u64)
        ensures
            r == self.next_id(),
    {
        self.next_id
    }

    /// Looks `key` up: a live connection is reused, a connection being
    /// established is waited for, and a miss reserves the key for this
    /// caller, who alone establishes it.
    pub fn get_or_create(&mut self, key: &str) -> (r: PoolDecision)
        requires
            old(self).wf(),
        ensures
            final(self).wf(),
            slots_consistent(final(self)@, final(self).next_id()),
            r == decision(old(self)@, key@),
            final(self)@ == after_lookup(old(self)@, key@),
            final(self).next_id() == old(self).next_id(),
    {
        match self.slots.get(key) {
            Some(Slot::Ready(id)) => PoolDecision::Reuse(*id),
            Some(Slot::Connecting) => PoolDecision::Wait,
            None => {
                self.slots.insert(key.to_owned(), Slot::Connecting);
                PoolDecision::Connect
            },
        }
    }

    /// Publishes the connection established for a reserved key and returns
    /// its id; a key that is not reserved gets none.
    pub fn publish(&mut self, key: &str) -> (r: Option<u64>)
        requires
            old(self).wf(),
            old(self).next_id() < u64::MAX,
        ensures
            final(self).wf(),
            slots_consistent(final(self)@, final(self).next_id()),
            r is Some <==> old(self)@.contains_key(key@) && old(self)@[key@] == Slot::Connecting,
            r matches Some(id) ==> id == old(self).next_id() && final(self).next_id() == id + 1,
            r is None ==> final(self).next_id() == old(self).next_id(),
            final(self)@ == published(old(self)@, key@, old(self).next_id()),
    {
        match self.slots.get(key) {
            Some(Slot::Connecting) => {
                let id = self.next_id;
                self.slots.insert(key.to_owned(), Slot::Ready(id));
                self.next_id = id + 1;
                Some(id)
            },
            _ => None,
        }
    }

    /// Releases the reservation of a key whose connection attempt failed.
    pub fn abandon(&mut self, key: &str)
        requires
            old(self).wf(),
        ensures
            final(self).wf(),
            slots_consistent(final(self)@, final(self).next_id()),
            final(self)@ == abandoned(old(self)@, key@),
            final(self).next_id() == old(self).next_id(),
    {
        match self.slots.get(key) {
            Some(Slot::Connecting) => {
                self.slots.remove(key);
            },
            _ => {},
        }
    }

    /// Forgets the connection of `key`, reported broken by a caller; the next
    /// lookup establishes a fresh one.
    pub fn invalidate(&mut self, key: &str)
        requires
            old(self).wf(),
        ensures
            final(self).wf(),
            slots_consistent(final(self)@, final(self).next_id()),
            final(self)@ == old(self)@.remove(key@),
            final(self).next_id() == old(self).next_id(),
    {
        self.slots.remove(key);
    }
}

/// Two lookups of one key share one connection: the first caller alone is
/// told to connect, a second one before publication waits, and every lookup
/// after publication reuses the same connection.
pub proof fn lemma_single_flight(m: Slots, key: Seq<char>, id: u64)
    requires
        !m.contains_key(key),
    ensures
        decision(m, key) == PoolDecision::Connect,
        decision(after_lookup(m, key), key) == PoolDecision::Wait,
        after_lookup(after_lookup(m, key), key) == after_lookup(m, key),
        decision(published(after_lookup(m, key), key, id), key) == PoolDecision::Reuse(id),
        after_lookup(published(after_lookup(m, key), key, id), key) == published(
            after_lookup(m, key),
            key,
            id,
        ),
{
}

/// After an invalidation the next lookup establishes a fresh connection,
/// and the id it is published under differs from the one forgotten.
pub proof fn lemma_invalidate_reconnects(m: Slots, next_id: u64, key: Seq<char>, old_id: u64)
    requires
        slots_consistent(m, next_id),
        m.contains_key(key),
        m[key] == Slot::Ready(old_id),
    ensures
        decision(m.remove(key), key) == PoolDecision::Connect,
        decision(published(after_lookup(m.remove(key), key), key, next_id), key)
            == PoolDecision::Reuse(next_id),
        next_id != old_id,
{
}

/// Two different keys never reuse the same connection.
pub proof fn lemma_keys_do_not_share(m: Slots, next_id: u64, k1: Seq<char>, k2: Seq<char>)
    requires
        slots_consistent(m, next_id),
        k1 != k2,
    ensures
        decision(m, k1) is Reuse && decision(m, k2) is Reuse ==> decision(m, k1)->Reuse_0 != decision(
            m,
            k2,
        )->Reuse_0,
{
    if decision(m, k1) is Reuse && decision(m, k2) is Reuse {
        assert(m[k1] is Ready && m[k2] is Ready);
    }
}

} // verus!
