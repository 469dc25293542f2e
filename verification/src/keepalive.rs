//! Client-initiated keepalive: decides when a probe is owed and whether the
//! peer has gone silent.
//!
//! At most one probe is outstanding at a time: `expected_ack_ms` is `Some`
//! exactly while a probe awaits its acknowledgment.

use vstd::prelude::*;

verus! {

/// Pure keepalive state over millisecond timestamps.
pub struct KeepAliveMonitor {
    pub last_probe_ms: u64,
    pub expected_ack_ms: Option<u64>,
    pub probe_interval_ms: u64,
    pub ack_timeout_ms: u64,
}

/// What one keepalive check decided.
#[derive(Clone, Copy, PartialEq, Eq, Structural, Debug)]
pub enum KeepAliveVerdict {
    /// A probe is owed now; the caller must send one.
    Probe,
    /// Nothing to do: either no probe is due yet, or one is outstanding and
    /// still within its timeout.
    Healthy,
    /// The outstanding probe went unanswered for `ack_timeout_ms`: the peer
    /// is to be treated as disconnected.
    TimedOut,
}

impl KeepAliveMonitor {
    /// A probe is owed: none is outstanding and the interval has elapsed
    /// since the last one.
    pub open spec fn spec_probe_due(self, now_ms: u64) -> bool {
        self.expected_ack_ms is None && now_ms >= self.last_probe_ms + self.probe_interval_ms
    }

    /// The outstanding probe, if any, has gone unanswered past the timeout.
    pub open spec fn spec_timed_out(self, now_ms: u64) -> bool {
        match self.expected_ack_ms {
            None => false,
            Some(t) => now_ms >= t + self.ack_timeout_ms,
        }
    }

    pub fn new(probe_interval_ms: u64, ack_timeout_ms: u64, now_ms: u64) -> (r: KeepAliveMonitor)
        ensures
            r == (KeepAliveMonitor {
                last_probe_ms: now_ms,
                expected_ack_ms: None,
                probe_interval_ms,
                ack_timeout_ms,
            }),
    {
        KeepAliveMonitor { last_probe_ms: now_ms, expected_ack_ms: None, probe_interval_ms, ack_timeout_ms }
    }

    /// One keepalive check. When a probe is owed the caller must send it;
    /// the probe is then recorded as outstanding, stamped `now_ms`. A
    /// `TimedOut` verdict is returned exactly when the outstanding probe has
    /// waited `ack_timeout_ms` or longer.
    pub fn tick(&mut self, now_ms: u64) -> (v: KeepAliveVerdict)
        ensures
            final(self).probe_interval_ms == old(self).probe_interval_ms,
            final(self).ack_timeout_ms == old(self).ack_timeout_ms,
            old(self).spec_probe_due(now_ms) ==> v == KeepAliveVerdict::Probe
                && final(self).last_probe_ms == now_ms
                && final(self).expected_ack_ms == Some(now_ms),
            old(self).spec_timed_out(now_ms) ==> v == KeepAliveVerdict::TimedOut
                && *final(self) == *old(self),
            !old(self).spec_probe_due(now_ms) && !old(self).spec_timed_out(now_ms)
                ==> v == KeepAliveVerdict::Healthy && *final(self) == *old(self),
            v == KeepAliveVerdict::Probe ==> old(self).spec_probe_due(now_ms),
            v == KeepAliveVerdict::TimedOut ==> old(self).spec_timed_out(now_ms),
    {
        match self.expected_ack_ms {
            None => {
                if now_ms >= self.last_probe_ms && now_ms - self.last_probe_ms
                    >= self.probe_interval_ms {
                    self.last_probe_ms = now_ms;
                    self.expected_ack_ms = Some(now_ms);
                    KeepAliveVerdict::Probe
                } else {
                    KeepAliveVerdict::Healthy
                }
            },
            Some(t) => {
                if now_ms >= t && now_ms - t >= self.ack_timeout_ms {
                    KeepAliveVerdict::TimedOut
                } else {
                    KeepAliveVerdict::Healthy
                }
            },
        }
    }

    /// Records the peer's acknowledgment: clears the outstanding probe
    /// unconditionally (an unsolicited acknowledgment is tolerated).
    pub fn on_ack_received(&mut self)
        ensures
            *final(self) == (KeepAliveMonitor { expected_ack_ms: None, ..*old(self) }),
    {
        self.expected_ack_ms = None;
    }
}

/// Law: no probe is owed before `probe_interval_ms` has elapsed since the
/// last probe, and a probe is only ever owed while none is outstanding.
pub proof fn lemma_probe_pacing(m: KeepAliveMonitor, now_ms: u64)
    ensures
        now_ms < m.last_probe_ms + m.probe_interval_ms ==> !m.spec_probe_due(now_ms),
        m.spec_probe_due(now_ms) ==> m.expected_ack_ms is None,
{
}

/// Law: a timeout is reported exactly when a probe is outstanding and
/// `ack_timeout_ms` has elapsed since it was sent with no acknowledgment.
pub proof fn lemma_timeout_exact(m: KeepAliveMonitor, now_ms: u64)
    ensures
        m.spec_timed_out(now_ms) <==> (exists|t: u64|
            m.expected_ack_ms == Some(t) && now_ms >= t + m.ack_timeout_ms),
{
    if m.spec_timed_out(now_ms) {
        let t = m.expected_ack_ms->0;
        assert(m.expected_ack_ms == Some(t) && now_ms >= t + m.ack_timeout_ms);
    }
}

} // verus!
