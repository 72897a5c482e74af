use vstd::prelude::*;

verus! {

/// What the heartbeat task does at a scheduling point.
#[derive(Debug, Clone, Copy, PartialEq, Eq, Structural)]
pub enum HeartbeatAction {
    /// Send one heartbeat, then wait for the next tick.
    Send,
    /// End the task.
    Stop,
}

/// The decisions of the periodic heartbeat task. It stops when asked, or
/// after a set number of ticks where one is given; a failed heartbeat is
/// counted and the task goes on.
pub struct HeartbeatSchedule {
    limit: Option<u64>,
    sent: u64,
    failures: u64,
    stopped: bool,
}

impl HeartbeatSchedule {
    pub closed spec fn limit(&self) -> Option<u64> {
        self.limit
    }

    pub closed spec fn sent(&self) -> nat {
        self.sent as nat
    }

    pub closed spec fn failures(&self) -> nat {
        self.failures as nat
    }

    pub closed spec fn is_stopped(&self) -> bool {
        self.stopped
    }

    pub fn new(limit: Option<u64>) -> (r: Self)
        ensures
            r.limit() == limit,
            r.sent() == 0,
            r.failures() == 0,
            !r.is_stopped(),
    {
        HeartbeatSchedule { limit, sent: 0, failures: 0, stopped: false }
    }

    /// Decides at one scheduling point, given whether cancellation was
    /// requested. Once stopped, the task stays stopped.
    pub fn next(&mut self, stop_requested: bool) -> (r: HeartbeatAction)
        ensures
            r == HeartbeatAction::Stop <==> old(self).is_stopped() || stop_requested
                || old(self).sent() == u64::MAX || (old(self).limit() matches Some(n)
                && old(self).sent() >= n),
            final(self).is_stopped() <==> r == HeartbeatAction::Stop,
            final(self).sent() == if r == HeartbeatAction::Send {
                old(self).sent() + 1
            } else {
                old(self).sent()
            },
            final(self).limit() == old(self).limit(),
            final(self).failures() == old(self).failures(),
    {
        let reached = match self.limit {
            Some(n) => self.sent >= n,
            None => false,
        };
        if self.stopped || stop_requested || self.sent == u64::MAX || reached {
            self.stopped = true;
            HeartbeatAction::Stop
        } else {
            self.sent = self.sent + 1;
            HeartbeatAction::Send
        }
    }

    /// Records how a heartbeat went; a failure never stops the task.
    pub fn record(&mut self, succeeded: bool)
        ensures
            final(self).failures() == if succeeded || old(self).failures() == u64::MAX {
                old(self).failures()
            } else {
                old(self).failures() + 1
            },
            final(self).is_stopped() == old(self).is_stopped(),
            final(self).sent() == old(self).sent(),
            final(self).limit() == old(self).limit(),
    {
        if !succeeded && self.failures < u64::MAX {
            self.failures = self.failures + 1;
        }
    }

    /// How many heartbeats have been sent.
    pub fn sent_count(&self) -> (r: u64)
        ensures
            r == self.sent(),
    {
        self.sent
    }

    /// How many heartbeats failed.
    pub fn failure_count(&self) -> (r: u64)
        ensures
            r == self.failures(),
    {
        self.failures
    }
}

} // verus!
