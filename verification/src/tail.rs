//! The decisions of a tail worker: when to renew a tail session, and how
//! long to wait before reconnecting after a session ends or fails.

use vstd::prelude::*;
use vstd::arithmetic::power2::{pow2, lemma_pow2_unfold};
use crate::clock::{Timestamp, utc_now, MIN_UTC_SECS, MAX_UTC_SECS};
use crate::config::Config;

verus! {

/// The largest number of whole seconds a `chrono::TimeDelta` holds
/// (`i64::MAX / 1000`).
pub const TIME_DELTA_MAX_SECS: i64 = 9_223_372_036_854_775;

/// A span of time to wait: `secs` seconds and `nanos` nanoseconds.
#[derive(Debug, Clone, Copy)]
pub struct Wait {
    pub secs: u64,
    pub nanos: u32,
}

impl Wait {
    /// The span in nanoseconds.
    pub open spec fn total_nanos(self) -> int {
        self.secs * 1_000_000_000 + self.nanos
    }
}

/// The refresh margin as the signed number of seconds it becomes when cast
/// to `i64`.
pub open spec fn margin_as_i64(margin_secs: u64) -> int {
    if margin_secs <= i64::MAX {
        margin_secs as int
    } else {
        margin_secs - 0x1_0000_0000_0000_0000int
    }
}

/// The margin fits a `TimeDelta` of seconds, and the expiry less the
/// margin stays within `chrono`'s range: the renewal instant can be
/// computed without a panic.
pub open spec fn refresh_computable(expires_at: Timestamp, margin_secs: u64) -> bool {
    let m: int = margin_as_i64(margin_secs);
    &&& -TIME_DELTA_MAX_SECS <= m <= TIME_DELTA_MAX_SECS
    &&& MIN_UTC_SECS <= expires_at.secs - m <= MAX_UTC_SECS
}

/// The instant, in nanoseconds since the epoch, at which a session that
/// expires at `expires_at` is renewed.
pub open spec fn refresh_instant(expires_at: Timestamp, margin_secs: u64) -> int {
    (expires_at.secs - margin_as_i64(margin_secs)) * 1_000_000_000 + expires_at.nanos
}

/// How long, at `now`, to wait before renewing: none once the renewal
/// instant has come.
pub open spec fn refresh_wait_nanos(expires_at: Timestamp, margin_secs: u64, now: Timestamp) -> int {
    let r: int = refresh_instant(expires_at, margin_secs);
    if r <= now.total_nanos() {
        0
    } else {
        r - now.total_nanos()
    }
}

/// How long, at `now`, to stream a session that expires at `expires_at`
/// before renewing it `margin_secs` seconds ahead of its expiry; no wait
/// when that moment has passed.
pub fn refresh_wait(expires_at: Timestamp, margin_secs: u64, now: Timestamp) -> (w: Wait)
    requires
        expires_at.wf(),
        now.wf(),
        refresh_computable(expires_at, margin_secs),
    ensures
        w.nanos < 1_000_000_000,
        w.total_nanos() == refresh_wait_nanos(expires_at, margin_secs, now),
{
    let m: i128 = if margin_secs <= 9_223_372_036_854_775_807u64 {
        margin_secs as i128
    } else {
        margin_secs as i128 - 0x1_0000_0000_0000_0000i128
    };
    let refresh_secs: i128 = expires_at.secs as i128 - m;
    assert(MIN_UTC_SECS <= refresh_secs <= MAX_UTC_SECS);
    assert(-8334601315200 * 1_000_000_000 <= refresh_secs * 1_000_000_000 <= 8210266876799
        * 1_000_000_000) by (nonlinear_arith)
        requires
            -8334601315200 <= refresh_secs <= 8210266876799,
    ;
    let refresh: i128 = refresh_secs * 1_000_000_000 + expires_at.nanos as i128;
    let now_secs: i128 = now.secs as i128;
    assert(-8334601315200 * 1_000_000_000 <= now_secs * 1_000_000_000 <= 8210266876799
        * 1_000_000_000) by (nonlinear_arith)
        requires
            -8334601315200 <= now_secs <= 8210266876799,
    ;
    let current: i128 = now_secs * 1_000_000_000 + now.nanos as i128;
    if refresh <= current {
        Wait { secs: 0, nanos: 0 }
    } else {
        let d: i128 = refresh - current;
        let secs: i128 = d / 1_000_000_000;
        let nanos: i128 = d % 1_000_000_000;
        assert(d == secs * 1_000_000_000 + nanos);
        Wait { secs: secs as u64, nanos: nanos as u32 }
    }
}

/// `refresh_wait` at the current time of the system clock; nothing when
/// the clock cannot be read as `chrono::Utc::now` reads it.
pub fn refresh_wait_from_now(expires_at: Timestamp, margin_secs: u64) -> (r: Option<Wait>)
    requires
        expires_at.wf(),
        refresh_computable(expires_at, margin_secs),
    ensures
        r matches Some(w) ==> w.nanos < 1_000_000_000 && exists|now: Timestamp|
            now.wf() && #[trigger] refresh_wait_nanos(expires_at, margin_secs, now)
                == w.total_nanos(),
{
    match utc_now() {
        None => None,
        Some(now) => {
            let w = refresh_wait(expires_at, margin_secs, now);
            assert(refresh_wait_nanos(expires_at, margin_secs, now) == w.total_nanos());
            Some(w)
        },
    }
}

/// With a margin of at least one second that fits an `i64`, a session is
/// renewed exactly that margin before it expires, so strictly before; and
/// at any time the wait ends at the later of now and the renewal instant.
pub proof fn law_renewal_precedes_expiry(expires_at: Timestamp, margin_secs: u64, now: Timestamp)
    requires
        1 <= margin_secs <= i64::MAX,
    ensures
        refresh_instant(expires_at, margin_secs) == expires_at.total_nanos() - margin_secs
            * 1_000_000_000,
        refresh_instant(expires_at, margin_secs) < expires_at.total_nanos(),
        now.total_nanos() + refresh_wait_nanos(expires_at, margin_secs, now) == if refresh_instant(
            expires_at,
            margin_secs,
        ) <= now.total_nanos() {
            now.total_nanos()
        } else {
            refresh_instant(expires_at, margin_secs)
        },
{
    assert((expires_at.secs - margin_secs) * 1_000_000_000 == expires_at.secs * 1_000_000_000
        - margin_secs * 1_000_000_000) by (nonlinear_arith);
}

/// A larger margin (within `i64`) never makes the wait longer.
pub proof fn law_larger_margin_waits_no_longer(
    expires_at: Timestamp,
    small: u64,
    large: u64,
    now: Timestamp,
)
    requires
        small <= large <= i64::MAX,
    ensures
        refresh_wait_nanos(expires_at, large, now) <= refresh_wait_nanos(expires_at, small, now),
{
    assert((expires_at.secs - large) * 1_000_000_000 <= (expires_at.secs - small) * 1_000_000_000)
        by (nonlinear_arith)
        requires
            small <= large,
    ;
}

/// The wait before a worker's next tail session: reset to `min_secs`
/// after a session that ended, doubled after one that failed, never above
/// `max_secs`.
#[derive(Debug, Clone, Copy)]
pub struct ReconnectBackoff {
    pub current_secs: u64,
    pub min_secs: u64,
    pub max_secs: u64,
}

/// How a tail session came to an end.
#[derive(Debug, Clone, Copy)]
pub enum SessionOutcome {
    /// It ended normally: closed by the server, or renewed before expiry.
    Ended,
    /// It failed: creating, connecting or reading went wrong.
    Failed,
}

/// What a worker does next.
#[derive(Debug, Clone, Copy)]
pub enum WorkerAction {
    /// Start the next session at once.
    Reconnect,
    /// Wait this many seconds, then start the next session.
    SleepThenReconnect(u64),
}

/// The smaller of two integers.
pub open spec fn min_int(a: int, b: int) -> int {
    if a <= b {
        a
    } else {
        b
    }
}

/// The backoff after a session with the given outcome.
pub open spec fn next_backoff(b: ReconnectBackoff, outcome: SessionOutcome) -> ReconnectBackoff {
    match outcome {
        SessionOutcome::Ended => ReconnectBackoff { current_secs: b.min_secs, ..b },
        SessionOutcome::Failed => ReconnectBackoff {
            current_secs: min_int(2 * b.current_secs, b.max_secs as int) as u64,
            ..b
        },
    }
}

/// What the worker does after a session with the given outcome.
pub open spec fn worker_action(b: ReconnectBackoff, outcome: SessionOutcome) -> WorkerAction {
    match outcome {
        SessionOutcome::Ended => WorkerAction::Reconnect,
        SessionOutcome::Failed => WorkerAction::SleepThenReconnect(b.current_secs),
    }
}

impl ReconnectBackoff {
    /// The backoff a worker starts with: the configured first wait.
    pub fn from_config(cfg: &Config) -> (b: ReconnectBackoff)
        ensures
            b == (ReconnectBackoff {
                current_secs: cfg.reconnect_min_secs,
                min_secs: cfg.reconnect_min_secs,
                max_secs: cfg.reconnect_max_secs,
            }),
    {
        ReconnectBackoff {
            current_secs: cfg.reconnect_min_secs,
            min_secs: cfg.reconnect_min_secs,
            max_secs: cfg.reconnect_max_secs,
        }
    }

    /// Records how a session ended and says what to do next: after a
    /// session that ended, reconnect at once and reset the wait; after one
    /// that failed, sleep the current wait, then double it up to the
    /// ceiling. Doubling a wait of `2^63` seconds or more overflows.
    pub fn after_session(&mut self, outcome: SessionOutcome) -> (a: WorkerAction)
        requires
            outcome is Failed ==> old(self).current_secs <= u64::MAX / 2,
        ensures
            *final(self) == next_backoff(*old(self), outcome),
            a == worker_action(*old(self), outcome),
    {
        match outcome {
            SessionOutcome::Ended => {
                self.current_secs = self.min_secs;
                WorkerAction::Reconnect
            },
            SessionOutcome::Failed => {
                let wait: u64 = self.current_secs;
                let doubled: u64 = wait * 2;
                self.current_secs = if doubled <= self.max_secs {
                    doubled
                } else {
                    self.max_secs
                };
                WorkerAction::SleepThenReconnect(wait)
            },
        }
    }
}

/// Once the wait lies between the first wait and the ceiling, it stays
/// there whatever the sessions do; with a ceiling of at most `2^63 - 1`
/// seconds, doubling it never overflows.
pub proof fn law_backoff_stays_within_bounds(b: ReconnectBackoff, outcome: SessionOutcome)
    requires
        b.min_secs <= b.current_secs <= b.max_secs,
    ensures
        next_backoff(b, outcome).min_secs <= next_backoff(b, outcome).current_secs
            <= next_backoff(b, outcome).max_secs,
        next_backoff(b, outcome).min_secs == b.min_secs,
        next_backoff(b, outcome).max_secs == b.max_secs,
        b.max_secs <= u64::MAX / 2 ==> b.current_secs <= u64::MAX / 2,
{
}

/// The larger of the first wait and the ceiling.
pub open spec fn larger_bound(b: ReconnectBackoff) -> int {
    if b.min_secs <= b.max_secs {
        b.max_secs as int
    } else {
        b.min_secs as int
    }
}

/// A worker starts with a wait no larger than the larger of its first
/// wait and its ceiling.
pub proof fn law_first_wait_within_larger_bound(cfg: Config)
    ensures
        ({
            let b = ReconnectBackoff {
                current_secs: cfg.reconnect_min_secs,
                min_secs: cfg.reconnect_min_secs,
                max_secs: cfg.reconnect_max_secs,
            };
            b.current_secs <= larger_bound(b)
        }),
{
}

/// Whatever its sessions do, a worker's wait stays no larger than the
/// larger of its first wait and its ceiling: it never sleeps longer than
/// that between two sessions.
pub proof fn law_sleep_never_exceeds_larger_bound(b: ReconnectBackoff, outcome: SessionOutcome)
    requires
        b.current_secs <= larger_bound(b),
    ensures
        next_backoff(b, outcome).current_secs <= larger_bound(next_backoff(b, outcome)),
        larger_bound(next_backoff(b, outcome)) == larger_bound(b),
        worker_action(b, outcome) matches WorkerAction::SleepThenReconnect(s) ==> s <= larger_bound(b),
{
}

/// The backoff after `k` failed sessions in a row, from `b`.
pub open spec fn after_failures(b: ReconnectBackoff, k: nat) -> ReconnectBackoff
    decreases k,
{
    if k == 0 {
        b
    } else {
        next_backoff(after_failures(b, (k - 1) as nat), SessionOutcome::Failed)
    }
}

proof fn lemma_after_failures_keeps_bounds(b: ReconnectBackoff, k: nat)
    ensures
        after_failures(b, k).min_secs == b.min_secs,
        after_failures(b, k).max_secs == b.max_secs,
    decreases k,
{
    if k > 0 {
        lemma_after_failures_keeps_bounds(b, (k - 1) as nat);
    }
}

/// After a session that ended, the waits of the following failed
/// sessions are the first wait doubled each time, capped at the ceiling:
/// the `k`-th is `min(min_secs * 2^k, max_secs)`.
pub proof fn law_failed_sessions_double_the_wait(b: ReconnectBackoff, k: nat)
    requires
        b.min_secs <= b.max_secs,
    ensures
        after_failures(next_backoff(b, SessionOutcome::Ended), k).current_secs == min_int(
            b.min_secs * pow2(k),
            b.max_secs as int,
        ),
    decreases k,
{
    let start = next_backoff(b, SessionOutcome::Ended);
    if k == 0 {
        assert(pow2(0) == 1) by {
            vstd::arithmetic::power2::lemma_pow2(0);
            vstd::arithmetic::power::lemma_pow0(2);
        }
    } else {
        law_failed_sessions_double_the_wait(b, (k - 1) as nat);
        lemma_pow2_unfold(k);
        let p: nat = pow2((k - 1) as nat);
        assert(b.min_secs * pow2(k) == 2 * (b.min_secs * p)) by (nonlinear_arith)
            requires
                pow2(k) == 2 * p,
        ;
        assert(b.min_secs * p >= 0) by (nonlinear_arith)
            requires
                p >= 0,
        ;
        let prev = after_failures(start, (k - 1) as nat);
        assert(prev.max_secs == b.max_secs && prev.min_secs == b.min_secs) by {
            lemma_after_failures_keeps_bounds(start, (k - 1) as nat);
        }
        assert(after_failures(start, k) == next_backoff(prev, SessionOutcome::Failed));
    }
}

} // verus!
