//! Windowed rate limiter for large-file transfers.
//!
//! The limiter is a pure state object driven by an injected clock (milliseconds):
//! `poll_ready` decides whether a transfer may emit bytes now or must wait until
//! a given instant, and `consume` records bytes that were actually handed to the
//! transport.  The surrounding stream adapter (outside this library) suspends on
//! `WaitUntil` with a timer and never spins.  One limiter belongs to exactly one
//! transfer; limits are per-connection.

use vstd::prelude::*;

verus! {

/// Length of the rolling window, in milliseconds.
pub const WINDOW_MS: u64 = 1000;

/// The answer of `RateLimiter::poll_ready`: either bytes may be emitted now,
/// or the caller must suspend until the given clock value (milliseconds).
#[derive(Clone, Copy, PartialEq, Eq, Structural, Debug)]
pub enum Readiness {
    Ready,
    WaitUntil(u64),
}

/// Token-bucket-style throttle over a rolling one-second window.
///
/// All times are milliseconds of a monotonic clock supplied by the caller.
#[derive(Clone, Copy, PartialEq, Eq, Structural, Debug)]
pub struct RateLimiter {
    /// Steady-state allowance per window.
    pub bytes_per_second: u64,
    /// Bytes recorded in the current window.
    pub bytes_consumed: u64,
    /// Clock value at which the current window began.
    pub window_start_ms: u64,
    /// Deadline of an armed wait, if one is outstanding.
    pub pending_until_ms: Option<u64>,
    /// Whether a burst allowance is granted on top of the steady rate.
    pub burst_enabled: bool,
    /// Extra allowance for short bursts; regenerates gradually, capped at a
    /// fifth of the steady rate.
    pub burst_buffer: u64,
}

impl RateLimiter {
    /// A zero rate is a configuration error, ruled out at construction; an
    /// armed deadline never lies before the end of the window that armed it.
    pub open spec fn wf(self) -> bool {
        &&& self.bytes_per_second >= 1
        &&& (self.pending_until_ms matches Some(d) ==>
            d == u64::MAX || d >= self.window_start_ms + WINDOW_MS)
    }

    /// The window that began at `window_start_ms` is over at `now_ms`.
    pub open spec fn window_elapsed(self, now_ms: u64) -> bool {
        now_ms >= self.window_start_ms + WINDOW_MS
    }

    /// Steady rate plus the current burst allowance.
    pub open spec fn effective_limit(self) -> int {
        self.bytes_per_second + self.burst_buffer
    }

    /// The window's allowance is used up.
    pub open spec fn exhausted(self) -> bool {
        self.bytes_consumed >= self.effective_limit()
    }

    /// The state after a window reset at `now_ms`.
    pub open spec fn spec_reset(self, now_ms: u64) -> RateLimiter {
        RateLimiter {
            bytes_consumed: 0,
            window_start_ms: now_ms,
            pending_until_ms: None,
            ..self
        }
    }

    /// Extra wait imposed on a severe overrun, proportional to the overrun
    /// ratio: `bytes_consumed * 100 / bytes_per_second` milliseconds.
    pub open spec fn spec_extra_wait(self) -> u64 {
        let v = (self.bytes_consumed as int) * 100 / (self.bytes_per_second as int);
        if v > u64::MAX { u64::MAX } else { v as u64 }
    }

    /// Deadline of the wait armed when the window's allowance is used up:
    /// the end of the current window, pushed further out if consumption
    /// overran the steady rate by more than a factor of two.
    pub open spec fn spec_wait_deadline(self) -> u64 {
        let base = self.window_start_ms.saturating_add(WINDOW_MS);
        if self.bytes_consumed > 2 * self.bytes_per_second {
            base.saturating_add(self.spec_extra_wait())
        } else {
            base
        }
    }

    /// The whole decision of `poll_ready`, as a function of the state and the
    /// clock: the successor state and the answer.
    pub open spec fn spec_poll_ready(self, now_ms: u64) -> (RateLimiter, Readiness) {
        if self.window_elapsed(now_ms) {
            (self.spec_reset(now_ms), Readiness::Ready)
        } else if self.pending_until_ms is Some && now_ms < self.pending_until_ms->0 {
            (self, Readiness::WaitUntil(self.pending_until_ms->0))
        } else {
            let cleared = RateLimiter { pending_until_ms: None, ..self };
            if cleared.exhausted() {
                let d = cleared.spec_wait_deadline();
                (
                    RateLimiter { pending_until_ms: Some(d), ..cleared },
                    Readiness::WaitUntil(d),
                )
            } else {
                (cleared, Readiness::Ready)
            }
        }
    }

    /// The burst buffer after `consume` at `now_ms`: while below its cap of a
    /// fifth of the steady rate, it regenerates at a tenth of the rate per
    /// second of window age, never beyond the cap.
    pub open spec fn spec_burst_after(self, now_ms: u64) -> u64 {
        let cap = self.bytes_per_second / 5;
        if self.burst_enabled && self.burst_buffer < cap {
            let elapsed = now_ms.saturating_sub(self.window_start_ms);
            let recovered = (self.bytes_per_second / 10) * elapsed / 1000;
            if self.burst_buffer + recovered > cap {
                cap
            } else {
                (self.burst_buffer + recovered) as u64
            }
        } else {
            self.burst_buffer
        }
    }

    /// A limiter with the steady rate alone: no burst allowance.
    pub fn new(bytes_per_second: u64, now_ms: u64) -> (r: RateLimiter)
        requires
            bytes_per_second >= 1,
        ensures
            r == RateLimiter::spec_new(bytes_per_second, false, 0, now_ms),
            r.wf(),
    {
        RateLimiter::with_burst(bytes_per_second, false, 0, now_ms)
    }

    /// The initial state: a fresh window starting at `now_ms`, nothing
    /// consumed, no wait armed, and the burst buffer granted only when burst
    /// mode is enabled.
    pub open spec fn spec_new(
        bytes_per_second: u64,
        burst_enabled: bool,
        burst_size: u64,
        now_ms: u64,
    ) -> RateLimiter {
        RateLimiter {
            bytes_per_second,
            bytes_consumed: 0,
            window_start_ms: now_ms,
            pending_until_ms: None,
            burst_enabled,
            burst_buffer: if burst_enabled { burst_size } else { 0 },
        }
    }

    /// A limiter with an optional burst allowance of `burst_size` bytes.
    pub fn with_burst(
        bytes_per_second: u64,
        burst_enabled: bool,
        burst_size: u64,
        now_ms: u64,
    ) -> (r: RateLimiter)
        requires
            bytes_per_second >= 1,
        ensures
            r == RateLimiter::spec_new(bytes_per_second, burst_enabled, burst_size, now_ms),
            r.wf(),
    {
        RateLimiter {
            bytes_per_second,
            bytes_consumed: 0,
            window_start_ms: now_ms,
            pending_until_ms: None,
            burst_enabled,
            burst_buffer: if burst_enabled { burst_size } else { 0 },
        }
    }

    /// Decides whether the transfer may emit bytes at `now_ms`.
    ///
    /// `Ready` means bytes may be emitted; `WaitUntil(d)` means the caller
    /// must suspend and poll again no earlier than clock value `d`.  A window
    /// that has run for a full second is reset; an exhausted allowance arms a
    /// wait until the window boundary (pushed further on a severe overrun).
    pub fn poll_ready(&mut self, now_ms: u64) -> (r: Readiness)
        requires
            old(self).wf(),
        ensures
            final(self).wf(),
            (*final(self), r) == old(self).spec_poll_ready(now_ms),
            // After a `Ready`, the window either was just reset or still has
            // allowance left.
            r == Readiness::Ready ==> final(self).bytes_consumed == 0
                || final(self).bytes_consumed < final(self).effective_limit(),
            // No wait ends before the window boundary.
            r matches Readiness::WaitUntil(d) ==> d == u64::MAX
                || d >= old(self).window_start_ms + WINDOW_MS,
            // A wait never lies in the past (it is the current clock value
            // only in the degenerate saturated case).
            r matches Readiness::WaitUntil(d) ==> d >= now_ms,
    {
        if now_ms.saturating_sub(self.window_start_ms) >= WINDOW_MS {
            self.bytes_consumed = 0;
            self.window_start_ms = now_ms;
            self.pending_until_ms = None;
            return Readiness::Ready;
        }
        match self.pending_until_ms {
            Some(d) if now_ms < d => {
                return Readiness::WaitUntil(d);
            }
            _ => {
                self.pending_until_ms = None;
            }
        }
        let exhausted = (self.bytes_consumed as u128)
            >= (self.bytes_per_second as u128) + (self.burst_buffer as u128);
        if exhausted {
            let d = self.wait_deadline();
            self.pending_until_ms = Some(d);
            Readiness::WaitUntil(d)
        } else {
            Readiness::Ready
        }
    }

    /// Computes the deadline of the wait armed on an exhausted window.
    fn wait_deadline(&self) -> (d: u64)
        requires
            self.wf(),
        ensures
            d == self.spec_wait_deadline(),
    {
        let base = self.window_start_ms.saturating_add(WINDOW_MS);
        let severe = (self.bytes_consumed as u128) > 2 * (self.bytes_per_second as u128);
        if severe {
            let extra128 = (self.bytes_consumed as u128) * 100 / (self.bytes_per_second as u128);
            let extra: u64 = if extra128 > u64::MAX as u128 {
                u64::MAX
            } else {
                extra128 as u64
            };
            assert(extra == self.spec_extra_wait());
            base.saturating_add(extra)
        } else {
            base
        }
    }

    /// Records `bytes` just handed to the transport; call only after a
    /// `Ready` answer of `poll_ready`, never speculatively.  When burst mode
    /// is on, the burst buffer regenerates gradually up to its cap.
    pub fn consume(&mut self, bytes: u64, now_ms: u64)
        requires
            old(self).wf(),
        ensures
            final(self).wf(),
            final(self).bytes_consumed == old(self).bytes_consumed.saturating_add(bytes),
            final(self).burst_buffer == old(self).spec_burst_after(now_ms),
            final(self).bytes_per_second == old(self).bytes_per_second,
            final(self).window_start_ms == old(self).window_start_ms,
            final(self).pending_until_ms == old(self).pending_until_ms,
            final(self).burst_enabled == old(self).burst_enabled,
    {
        self.bytes_consumed = self.bytes_consumed.saturating_add(bytes);
        let cap = self.bytes_per_second / 5;
        if self.burst_enabled && self.burst_buffer < cap {
            let rate10: u64 = self.bytes_per_second / 10;
            let elapsed = now_ms.saturating_sub(self.window_start_ms);
            proof {
                assert((rate10 as int) * (elapsed as int)
                    <= (u64::MAX as int) * (u64::MAX as int)) by (nonlinear_arith)
                    requires
                        rate10 <= u64::MAX,
                        elapsed <= u64::MAX,
                ;
            }
            let recovered128 = (rate10 as u128) * (elapsed as u128) / 1000;
            let total128 = (self.burst_buffer as u128) + recovered128;
            self.burst_buffer = if total128 > cap as u128 {
                cap
            } else {
                total128 as u64
            };
        }
    }
}

/// Builds rate limiters from a default rate and an optional burst ratio,
/// given as a percentage of the effective rate.
#[derive(Clone, Copy, PartialEq, Eq, Structural, Debug)]
pub struct RateLimiterFactory {
    pub default_rate: u64,
    pub burst_enabled: bool,
    pub burst_ratio_percent: u64,
}

impl RateLimiterFactory {
    pub open spec fn wf(self) -> bool {
        self.default_rate >= 1
    }

    /// The rate a limiter gets: the explicit one if given, else the default.
    pub open spec fn spec_effective_rate(self, rate: Option<u64>) -> u64 {
        if rate is Some {
            rate->0
        } else {
            self.default_rate
        }
    }

    /// The burst allowance granted at `rate`: `burst_ratio_percent` percent
    /// of the rate (saturated at the integer ceiling).
    pub open spec fn spec_burst_size(self, rate: u64) -> u64 {
        let v = (rate as int) * (self.burst_ratio_percent as int) / 100;
        if v > u64::MAX {
            u64::MAX
        } else {
            v as u64
        }
    }

    /// A factory without burst mode; the ratio defaults to twenty percent
    /// and takes effect only once `with_burst` enables it.
    pub fn new(default_rate: u64) -> (r: Self)
        requires
            default_rate >= 1,
        ensures
            r == (RateLimiterFactory {
                default_rate,
                burst_enabled: false,
                burst_ratio_percent: 20u64,
            }),
    {
        RateLimiterFactory { default_rate, burst_enabled: false, burst_ratio_percent: 20 }
    }

    /// Enables burst mode with the given ratio (percent of the rate).
    pub fn with_burst(self, burst_ratio_percent: u64) -> (r: Self)
        ensures
            r == (RateLimiterFactory { burst_enabled: true, burst_ratio_percent, ..self }),
    {
        RateLimiterFactory { burst_enabled: true, burst_ratio_percent, ..self }
    }

    /// A limiter at the effective rate, with the factory's burst policy,
    /// whose first window starts at `now_ms`.
    pub fn create_limiter(&self, rate: Option<u64>, now_ms: u64) -> (r: RateLimiter)
        requires
            self.wf(),
            rate matches Some(x) ==> x >= 1,
        ensures
            r == RateLimiter::spec_new(
                self.spec_effective_rate(rate),
                self.burst_enabled,
                self.spec_burst_size(self.spec_effective_rate(rate)),
                now_ms,
            ),
            r.wf(),
    {
        let effective_rate = match rate {
            Some(x) => x,
            None => self.default_rate,
        };
        proof {
            vstd::arithmetic::mul::lemma_mul_upper_bound(
                effective_rate as int,
                u64::MAX as int,
                self.burst_ratio_percent as int,
                u64::MAX as int,
            );
        }
        let size128 = (effective_rate as u128) * (self.burst_ratio_percent as u128) / 100;
        let burst_size: u64 = if size128 > u64::MAX as u128 {
            u64::MAX
        } else {
            size128 as u64
        };
        RateLimiter::with_burst(effective_rate, self.burst_enabled, burst_size, now_ms)
    }
}

/// Law: an exhausted window yields no further bytes before its boundary.
/// Whenever the current window is not yet over but its allowance is used up,
/// the poll answer is a wait whose deadline does not lie before the end of
/// the window.
pub proof fn lemma_exhausted_waits_out_the_window(l: RateLimiter, now_ms: u64)
    requires
        l.wf(),
        !l.window_elapsed(now_ms),
        l.exhausted(),
    ensures
        l.spec_poll_ready(now_ms).1 matches Readiness::WaitUntil(d)
            && (d == u64::MAX || d >= l.window_start_ms + WINDOW_MS),
{
}

/// Law (window throughput cap): a `Ready` answer that does not reset the
/// window certifies that the bytes already recorded in it lie strictly
/// below the effective limit.  Since `consume` is called only after a
/// `Ready`, the bytes of any single window exceed the limit by at most the
/// final chunk, whatever sequence of chunks a transfer emits.
pub proof fn lemma_ready_means_allowance_left(l: RateLimiter, now_ms: u64)
    requires
        l.wf(),
        !l.window_elapsed(now_ms),
        l.spec_poll_ready(now_ms).1 == Readiness::Ready,
    ensures
        l.bytes_consumed < l.effective_limit(),
{
}

/// Law: with no burst allowance, a transfer of `n_windows` times the rate,
/// in chunks that evenly divide the rate, spans at least `n_windows - 1`
/// full windows of clock time.  The transfer is replayed against the
/// limiter itself with a simulated clock that jumps straight to each wait
/// deadline, so the bound holds for every rate, chunk size and start time.
pub fn simulate_transfer(
    bytes_per_second: u64,
    chunk: u64,
    n_windows: u64,
    start_ms: u64,
) -> (elapsed_ms: u64)
    requires
        1 <= chunk <= bytes_per_second,
        bytes_per_second % chunk == 0,
        n_windows >= 1,
        n_windows * bytes_per_second <= u64::MAX,
        start_ms + (n_windows + 1) * WINDOW_MS <= u64::MAX,
    ensures
        elapsed_ms >= (n_windows - 1) * WINDOW_MS,
{
    let total: u64 = n_windows * bytes_per_second;
    let ghost m: int = bytes_per_second as int / chunk as int;
    proof {
        vstd::arithmetic::div_mod::lemma_fundamental_div_mod(
            bytes_per_second as int,
            chunk as int,
        );
        assert(bytes_per_second == (chunk as int) * m);
        vstd::arithmetic::div_mod::lemma_div_pos_is_pos(bytes_per_second as int, chunk as int);
        vstd::arithmetic::div_mod::lemma_div_non_zero(bytes_per_second as int, chunk as int);
    }
    let mut lim = RateLimiter::new(bytes_per_second, start_ms);
    let mut now: u64 = start_ms;
    let mut emitted: u64 = 0;
    let ghost mut resets: int = 0;
    let ghost mut kc: int = 0;
    while emitted < total
        invariant
            lim.wf(),
            lim.bytes_per_second == bytes_per_second,
            lim.burst_enabled == false,
            lim.burst_buffer == 0,
            1 <= chunk <= bytes_per_second,
            m >= 1,
            bytes_per_second == (chunk as int) * m,
            total == n_windows * bytes_per_second,
            n_windows >= 1,
            start_ms + (n_windows + 1) * WINDOW_MS <= u64::MAX,
            0 <= kc <= m,
            lim.bytes_consumed == (chunk as int) * kc,
            0 <= resets <= n_windows,
            emitted == resets * (bytes_per_second as int) + lim.bytes_consumed,
            emitted <= total,
            lim.window_start_ms == start_ms + resets * WINDOW_MS,
            lim.window_start_ms <= now,
            now <= start_ms + (resets + 1) * WINDOW_MS,
            lim.window_elapsed(now) ==> lim.bytes_consumed == bytes_per_second,
            lim.pending_until_ms matches Some(d) ==> (
                d == lim.window_start_ms + WINDOW_MS
                && lim.bytes_consumed == bytes_per_second
            ),
        decreases
            2 * (total - emitted) + (if lim.exhausted() && !lim.window_elapsed(now) { 1int } else { 0int }),
    {
        let ghost pre = lim;
        let answer = lim.poll_ready(now);
        match answer {
            Readiness::Ready => {
                proof {
                    if pre.window_elapsed(now) {
                        // A reset: the previous window was fully consumed.
                        vstd::arithmetic::mul::lemma_mul_is_distributive_add_other_way(
                            bytes_per_second as int,
                            resets,
                            1,
                        );
                        resets = resets + 1;
                        kc = 0;
                        // The windows completed so far never exceed the total.
                        vstd::arithmetic::mul::lemma_mul_inequality_converse(
                            resets,
                            n_windows as int,
                            bytes_per_second as int,
                        );
                        vstd::arithmetic::mul::lemma_mul_is_distributive_add_other_way(
                            WINDOW_MS as int,
                            resets,
                            1,
                        );
                        vstd::arithmetic::mul::lemma_mul_inequality(
                            resets,
                            n_windows as int,
                            WINDOW_MS as int,
                        );
                    } else {
                        // Still inside the window: a `Ready` here means there
                        // is allowance left, so a further chunk fits.
                        vstd::arithmetic::mul::lemma_mul_strict_inequality_converse(
                            kc,
                            m,
                            chunk as int,
                        );
                    }
                    // After one more chunk the window stays within its rate.
                    vstd::arithmetic::mul::lemma_mul_is_distributive_add(
                        chunk as int,
                        kc,
                        1,
                    );
                    vstd::arithmetic::mul::lemma_mul_left_inequality(
                        chunk as int,
                        kc + 1,
                        m,
                    );
                }
                lim.consume(chunk, now);
                proof {
                    kc = kc + 1;
                    // Bounding the running total by the full transfer:
                    // at most `n_windows - 1` windows lie behind us here.
                    if resets + 1 > n_windows {
                        vstd::arithmetic::mul::lemma_mul_inequality(
                            n_windows as int,
                            resets,
                            bytes_per_second as int,
                        );
                        assert(false);
                    }
                    vstd::arithmetic::mul::lemma_mul_is_distributive_add_other_way(
                        bytes_per_second as int,
                        resets,
                        1,
                    );
                    vstd::arithmetic::mul::lemma_mul_inequality(
                        resets + 1,
                        n_windows as int,
                        bytes_per_second as int,
                    );
                }
                emitted = emitted + chunk;
            }
            Readiness::WaitUntil(deadline) => {
                proof {
                    // Only an exhausted window waits, and with no burst the
                    // allowance is exactly the rate, fully used.
                    vstd::arithmetic::mul::lemma_mul_left_inequality(chunk as int, kc, m);
                    assert(pre.bytes_consumed <= bytes_per_second);
                    assert(pre.bytes_consumed == bytes_per_second);
                    assert(deadline == pre.window_start_ms + WINDOW_MS);
                }
                now = deadline;
            }
        }
    }
    proof {
        // The whole transfer went out: `n_windows` times the rate equals
        // the windows completed plus the final partial window, so at least
        // `n_windows - 1` resets happened, each a full window apart.
        vstd::arithmetic::mul::lemma_mul_left_inequality(chunk as int, kc, m);
        vstd::arithmetic::mul::lemma_mul_is_distributive_add_other_way(
            bytes_per_second as int,
            resets,
            1,
        );
        vstd::arithmetic::mul::lemma_mul_inequality_converse(
            n_windows as int,
            resets + 1,
            bytes_per_second as int,
        );
        vstd::arithmetic::mul::lemma_mul_inequality(
            n_windows as int - 1,
            resets,
            WINDOW_MS as int,
        );
    }
    now - start_ms
}

} // verus!
