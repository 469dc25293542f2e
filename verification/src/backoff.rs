//! Exponential reconnection backoff.
//!
//! A `BackoffPolicy` holds the delay to respect before the next reconnect
//! attempt. The delay doubles on every recorded failure, clamped at
//! `max_delay_ms`, and falls back to `base_delay_ms` on the first success.

use vstd::math::min;
use vstd::prelude::*;

verus! {

/// Pure reconnect-pacing state: the current delay, its bounds, and the time
/// of the last attempt (`None` when no attempt was made since the last
/// success, in which case an attempt is immediately due).
pub struct BackoffPolicy {
    pub base_delay_ms: u64,
    pub current_delay_ms: u64,
    pub max_delay_ms: u64,
    pub last_attempt_ms: Option<u64>,
}

impl BackoffPolicy {
    /// Invariant: the current delay always stays between the base and the cap.
    pub open spec fn wf(self) -> bool {
        &&& 1 <= self.base_delay_ms
        &&& self.base_delay_ms <= self.current_delay_ms
        &&& self.current_delay_ms <= self.max_delay_ms
    }

    /// A fresh policy, as `new` builds it.
    pub open spec fn spec_new(base_delay_ms: u64, max_delay_ms: u64) -> BackoffPolicy {
        BackoffPolicy {
            base_delay_ms,
            current_delay_ms: base_delay_ms,
            max_delay_ms,
            last_attempt_ms: None,
        }
    }

    pub fn new(base_delay_ms: u64, max_delay_ms: u64) -> (r: BackoffPolicy)
        requires
            1 <= base_delay_ms <= max_delay_ms,
        ensures
            r == BackoffPolicy::spec_new(base_delay_ms, max_delay_ms),
            r.wf(),
    {
        BackoffPolicy {
            base_delay_ms,
            current_delay_ms: base_delay_ms,
            max_delay_ms,
            last_attempt_ms: None,
        }
    }

    /// An attempt is due when none was made yet, or when the current delay
    /// has elapsed since the last one.
    pub open spec fn spec_is_due(self, now_ms: u64) -> bool {
        match self.last_attempt_ms {
            None => true,
            Some(t) => t <= now_ms && now_ms - t >= self.current_delay_ms,
        }
    }

    pub fn is_due(&self, now_ms: u64) -> (r: bool)
        ensures
            r == self.spec_is_due(now_ms),
    {
        match self.last_attempt_ms {
            None => true,
            Some(t) => t <= now_ms && now_ms - t >= self.current_delay_ms,
        }
    }

    /// The policy after one recorded failure: the attempt time is stamped and
    /// the delay doubles, clamped at the cap.
    pub open spec fn spec_record_failure(self, now_ms: u64) -> BackoffPolicy {
        (BackoffPolicy {
            current_delay_ms: min(2 * self.current_delay_ms as int, self.max_delay_ms as int)
                as u64,
            last_attempt_ms: Some(now_ms),
            ..self
        })
    }

    pub fn record_failure(&mut self, now_ms: u64)
        requires
            old(self).wf(),
        ensures
            *final(self) == old(self).spec_record_failure(now_ms),
            final(self).wf(),
    {
        let doubled: u64 = if self.current_delay_ms <= self.max_delay_ms / 2 {
            2 * self.current_delay_ms
        } else {
            self.max_delay_ms
        };
        self.current_delay_ms = doubled;
        self.last_attempt_ms = Some(now_ms);
    }

    /// The policy after a success: the delay is back at the base and no
    /// attempt is pending.
    pub open spec fn spec_record_success(self) -> BackoffPolicy {
        (BackoffPolicy { current_delay_ms: self.base_delay_ms, last_attempt_ms: None, ..self })
    }

    pub fn record_success(&mut self)
        requires
            old(self).wf(),
        ensures
            *final(self) == old(self).spec_record_success(),
            final(self).wf(),
    {
        self.current_delay_ms = self.base_delay_ms;
        self.last_attempt_ms = None;
    }

    /// The policy after `k` recorded failures in a row, all stamped `now_ms`.
    pub open spec fn spec_failures(self, k: nat, now_ms: u64) -> BackoffPolicy
        decreases k,
    {
        if k == 0 {
            self
        } else {
            self.spec_failures((k - 1) as nat, now_ms).spec_record_failure(now_ms)
        }
    }
}

/// 2 to the power `k`.
pub open spec fn pow2(k: nat) -> nat
    decreases k,
{
    if k == 0 {
        1
    } else {
        2 * pow2((k - 1) as nat)
    }
}

/// Law: from a fresh policy, repeated failures walk the delay through the
/// sequence `base, 2*base, 4*base, ...`, clamped at `max`: after `k` recorded
/// failures the delay in force is `min(2^k * base, max)`.
pub proof fn lemma_delay_sequence(base: u64, max: u64, k: nat, now_ms: u64)
    requires
        1 <= base <= max,
    ensures
        BackoffPolicy::spec_new(base, max).spec_failures(k, now_ms).current_delay_ms == min(
            pow2(k) * base,
            max as int,
        ),
        BackoffPolicy::spec_new(base, max).spec_failures(k, now_ms).base_delay_ms == base,
        BackoffPolicy::spec_new(base, max).spec_failures(k, now_ms).max_delay_ms == max,
    decreases k,
{
    if k == 0 {
        assert(pow2(k) == 1);
        assert(pow2(k) * base == base);
    } else {
        lemma_delay_sequence(base, max, (k - 1) as nat, now_ms);
        let prev = BackoffPolicy::spec_new(base, max).spec_failures((k - 1) as nat, now_ms);
        let p = pow2((k - 1) as nat) as int;
        let b = base as int;
        let m = max as int;
        assert(prev.current_delay_ms == min(p * b, m));
        assert(pow2(k) == 2 * pow2((k - 1) as nat));
        assert((2 * p) * b == 2 * (p * b)) by (nonlinear_arith);
        let x = p * b;
        assert(x >= 0) by (nonlinear_arith)
            requires
                p >= 0,
                b >= 0,
                x == p * b,
        ;
        assert(min(2 * min(x, m), m) == min(2 * x, m));
        assert(pow2(k) * base == 2 * x) by (nonlinear_arith)
            requires
                pow2(k) == 2 * p,
                x == p * b,
                b == base,
        ;
        assert(BackoffPolicy::spec_new(base, max).spec_failures(k, now_ms).current_delay_ms
            == min(2 * min(x, m), m));
    }
}

/// Law: one recorded success resets the delay to the base, whatever preceded.
pub proof fn lemma_success_resets(p: BackoffPolicy)
    ensures
        p.spec_record_success().current_delay_ms == p.base_delay_ms,
        p.spec_record_success().last_attempt_ms is None,
{
}

} // verus!
