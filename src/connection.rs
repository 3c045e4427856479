//! The connect-with-retry policy, as a state machine: the caller performs the
//! attempts and the sleeps, the connector decides what comes next.
use vstd::prelude::*;

verus! {

/// Attempts made before giving up, unless configured otherwise.
pub const TRY_TIME: u32 = 3;

/// Seconds slept between two attempts, unless configured otherwise.
pub const CONNECT_SLEEP_SEC: u64 = 3;

/// What the caller does next.
#[derive(Debug, Clone, Copy, PartialEq, Eq, Structural)]
pub enum ConnectStep {
    /// Try to open the session.
    Attempt,
    /// Sleep this many seconds, then attempt again.
    Sleep(u64),
    /// The session is open: use it.
    Connected,
    /// Every attempt failed; the agent cannot run without a server.
    GiveUp,
}

/// A fixed-delay retry policy (no backoff) and the attempts made so far.
#[derive(Debug, Clone, Copy, PartialEq, Eq, Structural)]
pub struct Connector {
    pub retry_limit: u32,
    pub retry_delay_secs: u64,
    pub attempts: u32,
}

impl Connector {
    /// Never more attempts than the limit.
    pub open spec fn wf(&self) -> bool {
        self.attempts <= self.retry_limit
    }

    /// A connector that has made no attempt yet.
    pub fn new(retry_limit: u32, retry_delay_secs: u64) -> (r: Connector)
        ensures
            r == (Connector { retry_limit, retry_delay_secs, attempts: 0 }),
            r.wf(),
    {
        Connector { retry_limit, retry_delay_secs, attempts: 0 }
    }

    /// The default policy: three attempts, three seconds apart.
    pub fn with_defaults() -> (r: Connector)
        ensures
            r == (Connector { retry_limit: TRY_TIME, retry_delay_secs: CONNECT_SLEEP_SEC, attempts: 0 }),
    {
        Connector::new(TRY_TIME, CONNECT_SLEEP_SEC)
    }

    /// The first step: an attempt, unless the limit allows none.
    pub fn start(&self) -> (r: ConnectStep)
        ensures
            r == if self.attempts < self.retry_limit {
                ConnectStep::Attempt
            } else {
                ConnectStep::GiveUp
            },
    {
        if self.attempts < self.retry_limit {
            ConnectStep::Attempt
        } else {
            ConnectStep::GiveUp
        }
    }

    /// Records the outcome of an attempt and says what comes next: the
    /// session on success; after a failure, a sleep of the configured delay
    /// while attempts remain, else giving up.
    pub fn on_attempt(&mut self, connected: bool) -> (r: ConnectStep)
        requires
            old(self).attempts < old(self).retry_limit,
        ensures
            *final(self) == (Connector { attempts: (old(self).attempts + 1) as u32, ..*old(self) }),
            final(self).wf(),
            r == if connected {
                ConnectStep::Connected
            } else if final(self).attempts < final(self).retry_limit {
                ConnectStep::Sleep(old(self).retry_delay_secs)
            } else {
                ConnectStep::GiveUp
            },
    {
        self.attempts = self.attempts + 1;
        if connected {
            ConnectStep::Connected
        } else if self.attempts < self.retry_limit {
            ConnectStep::Sleep(self.retry_delay_secs)
        } else {
            ConnectStep::GiveUp
        }
    }
}

} // verus!
