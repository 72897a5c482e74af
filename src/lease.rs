use vstd::prelude::*;
use crate::error::ClientError;
use crate::table::Table;

verus! {

/// The state of one delivered but unfinalized message.
#[derive(Debug, Clone, Copy, PartialEq, Eq, Structural)]
pub struct Lease {
    /// Instant, in milliseconds, until which the message stays invisible.
    pub deadline_ms: u64,
    /// How many times the message has been delivered.
    pub attempts: u32,
}

/// The leases as a map from receipt handle to lease.
pub type Leases = Map<Seq<char>, Lease>;

/// The tracker after a delivery: a fresh lease on its first attempt.
pub open spec fn delivered(m: Leases, handle: Seq<char>, now_ms: u64, invisible_ms: u64) -> Leases {
    m.insert(handle, Lease { deadline_ms: (now_ms + invisible_ms) as u64, attempts: 1 })
}

/// What acknowledging `handle` returns: success for a live lease and for
/// one already acknowledged; an error for a handle never seen.
pub open spec fn ack_result(m: Leases, done: Set<Seq<char>>, handle: Seq<char>) -> Result<
    (),
    ClientError,
> {
    if m.contains_key(handle) || done.contains(handle) {
        Ok(())
    } else {
        Err(ClientError::UnknownReceiptHandle)
    }
}

/// The leases after an acknowledgement: the handle is no longer tracked.
pub open spec fn acked(m: Leases, handle: Seq<char>) -> Leases {
    m.remove(handle)
}

/// The acknowledged handles after an acknowledgement of a live lease.
pub open spec fn acked_handles(m: Leases, done: Set<Seq<char>>, handle: Seq<char>) -> Set<
    Seq<char>,
> {
    if m.contains_key(handle) {
        done.insert(handle)
    } else {
        done
    }
}

/// What an extension of `handle` to `deadline_ms` at `now_ms` returns.
pub open spec fn extend_result(m: Leases, handle: Seq<char>, now_ms: u64, deadline_ms: u64) -> Result<
    (),
    ClientError,
> {
    if !m.contains_key(handle) {
        Err(ClientError::UnknownReceiptHandle)
    } else if deadline_ms < now_ms {
        Err(ClientError::InvalidLeaseExtension)
    } else {
        Ok(())
    }
}

/// The tracker after that extension: on success the deadline is replaced and
/// the attempt count kept; on failure nothing changes.
pub open spec fn extended(m: Leases, handle: Seq<char>, now_ms: u64, deadline_ms: u64) -> Leases {
    if extend_result(m, handle, now_ms, deadline_ms) is Ok {
        m.insert(handle, Lease { deadline_ms, attempts: m[handle].attempts })
    } else {
        m
    }
}

/// A lease whose deadline has been reached is no longer owned.
pub open spec fn is_expired(m: Leases, handle: Seq<char>, now_ms: u64) -> bool {
    m.contains_key(handle) && m[handle].deadline_ms <= now_ms
}

/// Tracks the lease of every message received and not yet finalized, one
/// per receipt handle.
pub struct LeaseTracker {
    leases: Table<Lease>,
    acknowledged: Table<()>,
}

impl LeaseTracker {
    pub closed spec fn view(&self) -> Leases {
        self.leases@
    }

    /// The handles whose lease ended by an acknowledgement.
    pub closed spec fn acknowledged(&self) -> Set<Seq<char>> {
        self.acknowledged@.dom()
    }

    pub closed spec fn wf(&self) -> bool {
        self.leases.wf() && self.acknowledged.wf()
    }

    pub fn new() -> (r: Self)
        ensures
            r.wf(),
            r@ == Leases::empty(),
            r.acknowledged() == Set::<Seq<char>>::empty(),
    {
        let r = LeaseTracker { leases: Table::new(), acknowledged: Table::new() };
        assert(r.acknowledged() =~= Set::<Seq<char>>::empty());
        r
    }

    /// Starts tracking a message that a receive or pull returned.
    pub fn deliver(&mut self, handle: String, now_ms: u64, invisible_ms: u64)
        requires
            old(self).wf(),
            now_ms + invisible_ms <= u64::MAX,
        ensures
            final(self).wf(),
            final(self)@ == delivered(old(self)@, handle@, now_ms, invisible_ms),
            final(self).acknowledged() == old(self).acknowledged(),
    {
        self.leases.insert(handle, Lease { deadline_ms: now_ms + invisible_ms, attempts: 1 });
    }

    /// The lease held under `handle`, if any.
    pub fn lease(&self, handle: &str) -> (r: Option<Lease>)
        requires
            self.wf(),
        ensures
            r is Some <==> self@.contains_key(handle@),
            r matches Some(l) ==> l == self@[handle@],
    {
        match self.leases.get(handle) {
            Some(l) => Some(*l),
            None => None,
        }
    }

    /// The invisibility deadline of `handle`, if it is tracked.
    pub fn deadline(&self, handle: &str) -> (r: Option<u64>)
        requires
            self.wf(),
        ensures
            r is Some <==> self@.contains_key(handle@),
            r matches Some(d) ==> d == self@[handle@].deadline_ms,
    {
        match self.leases.get(handle) {
            Some(l) => Some(l.deadline_ms),
            None => None,
        }
    }

    /// Acknowledges a message. Acknowledging it a second time succeeds and
    /// changes nothing; a handle never delivered is reported.
    pub fn ack(&mut self, handle: &str) -> (r: Result<(), ClientError>)
        requires
            old(self).wf(),
        ensures
            final(self).wf(),
            r == ack_result(old(self)@, old(self).acknowledged(), handle@),
            final(self)@ == acked(old(self)@, handle@),
            final(self).acknowledged() == acked_handles(old(self)@, old(self).acknowledged(), handle@),
    {
        match self.leases.remove(handle) {
            Some(_) => {
                self.acknowledged.insert(handle.to_owned(), ());
                assert(self.acknowledged() =~= old(self).acknowledged().insert(handle@));
                Ok(())
            },
            None => {
                if self.acknowledged.contains(handle) {
                    Ok(())
                } else {
                    Err(ClientError::UnknownReceiptHandle)
                }
            },
        }
    }

    /// Moves the invisibility deadline of `handle` to `deadline_ms`; a
    /// deadline before `now_ms` is refused.
    pub fn extend(&mut self, handle: &str, now_ms: u64, deadline_ms: u64) -> (r: Result<
        (),
        ClientError,
    >)
        requires
            old(self).wf(),
        ensures
            final(self).wf(),
            r == extend_result(old(self)@, handle@, now_ms, deadline_ms),
            final(self)@ == extended(old(self)@, handle@, now_ms, deadline_ms),
            final(self).acknowledged() == old(self).acknowledged(),
    {
        match self.leases.get(handle) {
            None => Err(ClientError::UnknownReceiptHandle),
            Some(l) => {
                if deadline_ms < now_ms {
                    Err(ClientError::InvalidLeaseExtension)
                } else {
                    let attempts = l.attempts;
                    self.leases.insert(handle.to_owned(), Lease { deadline_ms, attempts });
                    Ok(())
                }
            },
        }
    }

    /// Makes `handle` invisible for `duration_ms` more from `now_ms`.
    pub fn change_invisible_duration(&mut self, handle: &str, now_ms: u64, duration_ms: u64) -> (r:
        Result<(), ClientError>)
        requires
            old(self).wf(),
            now_ms + duration_ms <= u64::MAX,
        ensures
            final(self).wf(),
            r == extend_result(old(self)@, handle@, now_ms, (now_ms + duration_ms) as u64),
            final(self)@ == extended(old(self)@, handle@, now_ms, (now_ms + duration_ms) as u64),
            final(self).acknowledged() == old(self).acknowledged(),
    {
        self.extend(handle, now_ms, now_ms + duration_ms)
    }

    /// Forwards a message to the dead-letter queue: its lease ends.
    pub fn forward_to_dead_letter(&mut self, handle: &str) -> (r: Result<(), ClientError>)
        requires
            old(self).wf(),
        ensures
            final(self).wf(),
            r is Ok <==> old(self)@.contains_key(handle@),
            r is Err ==> r == Err::<(), ClientError>(ClientError::UnknownReceiptHandle),
            final(self)@ == old(self)@.remove(handle@),
            final(self).acknowledged() == old(self).acknowledged(),
    {
        match self.leases.remove(handle) {
            Some(_) => Ok(()),
            None => Err(ClientError::UnknownReceiptHandle),
        }
    }

    /// Stops owning `handle` once its deadline is reached, and returns its
    /// attempt count for the next delivery; otherwise changes nothing.
    pub fn expire(&mut self, handle: &str, now_ms: u64) -> (r: Option<u32>)
        requires
            old(self).wf(),
        ensures
            final(self).wf(),
            r is Some <==> is_expired(old(self)@, handle@, now_ms),
            r matches Some(a) ==> a == old(self)@[handle@].attempts,
            final(self).acknowledged() == old(self).acknowledged(),
            final(self)@ == if is_expired(old(self)@, handle@, now_ms) {
                old(self)@.remove(handle@)
            } else {
                old(self)@
            },
    {
        match self.leases.get(handle) {
            Some(l) => {
                if l.deadline_ms <= now_ms {
                    let attempts = l.attempts;
                    self.leases.remove(handle);
                    Some(attempts)
                } else {
                    None
                }
            },
            None => None,
        }
    }
}

/// Acknowledging a delivered handle twice succeeds both times; the second
/// changes nothing, and after the first no lease remains under it.
pub proof fn lemma_ack_idempotent(m: Leases, done: Set<Seq<char>>, handle: Seq<char>)
    requires
        m.contains_key(handle) || done.contains(handle),
    ensures
        ack_result(m, done, handle) is Ok,
        ack_result(acked(m, handle), acked_handles(m, done, handle), handle) is Ok,
        acked(acked(m, handle), handle) == acked(m, handle),
        acked_handles(acked(m, handle), acked_handles(m, done, handle), handle) == acked_handles(
            m,
            done,
            handle,
        ),
        !acked(m, handle).contains_key(handle),
{
    assert(acked(acked(m, handle), handle) =~= acked(m, handle));
}

/// Extending a tracked lease to a deadline before now is refused and changes
/// nothing; extending it to now or later succeeds, and the new deadline is
/// what the tracker then holds, with the attempt count unchanged.
pub proof fn lemma_extension_forward(m: Leases, handle: Seq<char>, now_ms: u64, deadline_ms: u64)
    requires
        m.contains_key(handle),
    ensures
        deadline_ms < now_ms ==> extend_result(m, handle, now_ms, deadline_ms) == Err::<
            (),
            ClientError,
        >(ClientError::InvalidLeaseExtension) && extended(m, handle, now_ms, deadline_ms) == m,
        deadline_ms >= now_ms ==> extend_result(m, handle, now_ms, deadline_ms) is Ok
            && extended(m, handle, now_ms, deadline_ms).contains_key(handle)
            && extended(m, handle, now_ms, deadline_ms)[handle].deadline_ms == deadline_ms
            && extended(m, handle, now_ms, deadline_ms)[handle].attempts == m[handle].attempts,
{
}

} // verus!
