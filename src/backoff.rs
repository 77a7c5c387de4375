use vstd::prelude::*;

use crate::errors::AdaptiveError;

verus! {

/// Nanoseconds in one second.
pub const NANOS_PER_SEC: u64 = 1_000_000_000;

/// `b` raised to the power `e`.
pub open spec fn power(b: nat, e: nat) -> nat
    decreases e,
{
    if e == 0 {
        1
    } else {
        b * power(b, (e - 1) as nat)
    }
}

/// `x` held in a `u64`, saturating at `u64::MAX`.
pub open spec fn capped(x: int) -> u64 {
    if x > u64::MAX {
        u64::MAX
    } else if x < 0 {
        0
    } else {
        x as u64
    }
}

/// `raw` raised to at least `min` and, where a maximum is set, lowered to at most it.
pub open spec fn clamp_delay(raw: u64, min: u64, max: Option<u64>) -> u64 {
    let lo = if raw < min {
        min
    } else {
        raw
    };
    match max {
        Some(m) => if lo > m {
            m
        } else {
            lo
        },
        None => lo,
    }
}

/// The delay, in nanoseconds, of an exponential curve after `hits` hits:
/// `factor^hits` seconds, clamped to `[min, max]`.
pub open spec fn curve_delay(factor: u64, hits: u64, min: u64, max: Option<u64>) -> u64 {
    clamp_delay(capped(power(factor as nat, hits as nat) * NANOS_PER_SEC), min, max)
}

/// A source of delays that grows with use and can be restarted.
pub trait Backoff: Sized {
    /// The delay, in nanoseconds, that the next `wait` returns.
    spec fn next_delay(&self) -> u64;

    /// The state after one `wait`.
    spec fn waited(&self) -> Self;

    /// The state after `reset`.
    spec fn restarted(&self) -> Self;

    /// The next delay, in nanoseconds; the curve moves on by one step.
    fn wait(&mut self) -> (d: u64)
        ensures
            d == old(self).next_delay(),
            *final(self) == old(self).waited(),
    ;

    /// Brings the curve back to its first step.
    fn reset(&mut self)
        ensures
            *final(self) == old(self).restarted(),
    ;

    /// A restart forgets what came before it: waits before a restart leave
    /// no trace, and a second restart changes nothing.
    proof fn lemma_restart_forgets(b: Self)
        ensures
            b.waited().restarted() == b.restarted(),
            b.restarted().restarted() == b.restarted(),
    ;
}

/// An exponential curve: the n-th wait after a reset returns `factor^n` seconds,
/// clamped to `[min, max]`.
#[derive(Debug, Clone, Copy, PartialEq, Eq)]
pub struct ExponentialBackoff {
    /// The growth base.
    pub factor: u64,
    /// The largest delay returned, in nanoseconds, if any.
    pub max: Option<u64>,
    /// The smallest delay returned, in nanoseconds.
    pub min: u64,
    /// The exponent of the next wait; it saturates at `u64::MAX`.
    pub hits: u64,
}

impl ExponentialBackoff {
    /// The curve after `k` waits.
    pub open spec fn waits(self, k: nat) -> ExponentialBackoff
        decreases k,
    {
        if k == 0 {
            self
        } else {
            self.waits((k - 1) as nat).waited()
        }
    }
}

proof fn lemma_power_one(e: nat)
    ensures
        power(1, e) == 1,
    decreases e,
{
    if e > 0 {
        lemma_power_one((e - 1) as nat);
    }
}

proof fn lemma_power_zero(e: nat)
    requires
        e > 0,
    ensures
        power(0, e) == 0,
{
}

proof fn lemma_power_grows(b: nat, i: nat, j: nat)
    requires
        b >= 1,
        i <= j,
    ensures
        power(b, i) <= power(b, j),
    decreases j,
{
    if i < j {
        lemma_power_grows(b, i, (j - 1) as nat);
        let p = power(b, (j - 1) as nat);
        assert(p <= b * p) by (nonlinear_arith)
            requires
                b >= 1,
        ;
    }
}

/// `factor^hits` seconds in nanoseconds, saturating at `u64::MAX`.
fn scaled_power(factor: u64, hits: u64) -> (r: u64)
    ensures
        r == capped(power(factor as nat, hits as nat) * NANOS_PER_SEC),
{
    if factor == 0 {
        if hits == 0 {
            return NANOS_PER_SEC;
        }
        proof {
            lemma_power_zero(hits as nat);
        }
        return 0;
    }
    if factor == 1 {
        proof {
            lemma_power_one(hits as nat);
        }
        return NANOS_PER_SEC;
    }
    let mut acc: u64 = NANOS_PER_SEC;
    let mut i: u64 = 0;
    while i < hits
        invariant
            2 <= factor,
            i <= hits,
            acc == capped(power(factor as nat, i as nat) * NANOS_PER_SEC),
        decreases hits - i,
    {
        let ghost p = power(factor as nat, i as nat);
        if acc == u64::MAX {
            proof {
                lemma_power_grows(factor as nat, i as nat, hits as nat);
                let q = power(factor as nat, hits as nat);
                assert(p * NANOS_PER_SEC <= q * NANOS_PER_SEC) by (nonlinear_arith)
                    requires
                        p <= q,
                ;
            }
            return u64::MAX;
        }
        assert(acc == p * NANOS_PER_SEC);
        assert(power(factor as nat, (i + 1) as nat) == factor * p);
        assert((factor * p) * NANOS_PER_SEC == acc * factor) by (nonlinear_arith)
            requires
                acc == p * NANOS_PER_SEC,
        ;
        if acc > u64::MAX / factor {
            assert(acc * factor > u64::MAX) by (nonlinear_arith)
                requires
                    acc > u64::MAX / factor,
                    factor >= 2,
            ;
            acc = u64::MAX;
        } else {
            assert(acc * factor <= u64::MAX) by (nonlinear_arith)
                requires
                    acc <= u64::MAX / factor,
                    factor >= 2,
            ;
            acc = acc * factor;
        }
        i = i + 1;
    }
    acc
}

impl Backoff for ExponentialBackoff {
    open spec fn next_delay(&self) -> u64 {
        curve_delay(self.factor, self.hits, self.min, self.max)
    }

    open spec fn waited(&self) -> ExponentialBackoff {
        ExponentialBackoff {
            factor: self.factor,
            max: self.max,
            min: self.min,
            hits: capped(self.hits + 1),
        }
    }

    open spec fn restarted(&self) -> ExponentialBackoff {
        ExponentialBackoff { factor: self.factor, max: self.max, min: self.min, hits: 1 }
    }

    fn wait(&mut self) -> (d: u64) {
        let raw = scaled_power(self.factor, self.hits);
        self.hits = self.hits.saturating_add(1);
        let mut nanos = if raw < self.min {
            self.min
        } else {
            raw
        };
        match self.max {
            Some(m) => {
                if nanos > m {
                    nanos = m;
                }
            },
            None => {},
        }
        nanos
    }

    fn reset(&mut self) {
        self.hits = 1;
    }

    proof fn lemma_restart_forgets(b: ExponentialBackoff) {
    }
}

impl Default for ExponentialBackoff {
    /// A curve with every field zero.
    fn default() -> (r: ExponentialBackoff)
        ensures
            r == (ExponentialBackoff { factor: 0, max: None, min: 0, hits: 0 }),
    {
        ExponentialBackoff { factor: 0, max: None, min: 0, hits: 0 }
    }
}

/// Builds a backoff from a configuration, or refuses the configuration.
pub trait BackoffBuilder<T: Backoff>: Sized {
    /// What `build` yields: the backoff, or `None` where the configuration is refused.
    spec fn built(&self) -> Option<T>;

    /// The backoff that this configuration describes.
    fn build(&mut self) -> (r: Result<T, AdaptiveError>)
        ensures
            *final(self) == *old(self),
            match r {
                Ok(b) => old(self).built() == Some(b),
                Err(e) => old(self).built() is None && e is BuilderFailure,
            },
    ;
}

/// The configuration of an `ExponentialBackoff`; the minimum and the factor
/// are required.
#[derive(Debug, Clone, Copy, PartialEq, Eq)]
pub struct ExponentialBackoffBuilder {
    /// The minimum and first delay, in nanoseconds.
    pub min: Option<u64>,
    /// The largest delay, in nanoseconds.
    pub max: Option<u64>,
    /// The growth base.
    pub factor: Option<u64>,
}

impl Default for ExponentialBackoffBuilder {
    fn default() -> (r: ExponentialBackoffBuilder)
        ensures
            r.min is None,
            r.max is None,
            r.factor is None,
    {
        ExponentialBackoffBuilder { min: None, max: None, factor: None }
    }
}

impl BackoffBuilder<ExponentialBackoff> for ExponentialBackoffBuilder {
    open spec fn built(&self) -> Option<ExponentialBackoff> {
        match (self.min, self.factor) {
            (Some(min), Some(factor)) => Some(
                ExponentialBackoff { factor, max: self.max, min, hits: 1 },
            ),
            _ => None,
        }
    }

    /// Finishes the exponential backoff; it fails where the minimum or the
    /// factor was not given.
    fn build(&mut self) -> (r: Result<ExponentialBackoff, AdaptiveError>) {
        let min = match self.min {
            Some(m) => m,
            None => {
                return Err(
                    AdaptiveError::BuilderFailure {
                        msg: "the minimum initial value is required".to_string(),
                    },
                );
            },
        };
        let factor = match self.factor {
            Some(f) => f,
            None => {
                return Err(
                    AdaptiveError::BuilderFailure {
                        msg: "the growth factor is required".to_string(),
                    },
                );
            },
        };
        Ok(ExponentialBackoff { factor, max: self.max, min, hits: 1 })
    }
}

impl ExponentialBackoffBuilder {
    /// Sets the minimum and first delay, in nanoseconds.
    pub fn min(&mut self, min: u64) -> (r: &mut ExponentialBackoffBuilder)
        ensures
            *r == (ExponentialBackoffBuilder { min: Some(min), ..*old(self) }),
            *final(self) == *final(r),
    {
        self.min = Some(min);
        self
    }

    /// Sets the largest delay that can be returned, in nanoseconds.
    pub fn max(&mut self, max: u64) -> (r: &mut ExponentialBackoffBuilder)
        ensures
            *r == (ExponentialBackoffBuilder { max: Some(max), ..*old(self) }),
            *final(self) == *final(r),
    {
        self.max = Some(max);
        self
    }

    /// Sets the growth base of the curve.
    pub fn factor(&mut self, f: u64) -> (r: &mut ExponentialBackoffBuilder)
        ensures
            *r == (ExponentialBackoffBuilder { factor: Some(f), ..*old(self) }),
            *final(self) == *final(r),
    {
        self.factor = Some(f);
        self
    }
}

/// Waiting only moves the hit counter, by one step per wait, up to `u64::MAX`.
pub proof fn lemma_waits_count(e: ExponentialBackoff, k: nat)
    ensures
        e.waits(k) == (ExponentialBackoff { hits: capped(e.hits + k), ..e }),
    decreases k,
{
    if k > 0 {
        lemma_waits_count(e, (k - 1) as nat);
    }
}

/// Growth: on a fresh curve with factor `f`, no minimum above zero and no
/// maximum, the n-th wait returns `f^n` seconds, saturating at `u64::MAX`
/// nanoseconds; the counter itself reaches `u64::MAX` waits.
pub proof fn lemma_growth_law(e: ExponentialBackoff, n: nat)
    requires
        e.hits == 1,
        e.min == 0,
        e.max is None,
        1 <= n <= u64::MAX,
    ensures
        e.waits((n - 1) as nat).next_delay() == capped(power(e.factor as nat, n) * NANOS_PER_SEC),
        power(e.factor as nat, n) * NANOS_PER_SEC <= u64::MAX ==> e.waits((n - 1) as nat).next_delay()
            == power(e.factor as nat, n) * NANOS_PER_SEC,
{
    lemma_waits_count(e, (n - 1) as nat);
}

/// Clamping: where the minimum does not exceed the maximum, every delay of
/// the curve, after any number of waits, lies between them.
pub proof fn lemma_clamped(e: ExponentialBackoff, k: nat)
    requires
        e.max matches Some(m) ==> e.min <= m,
    ensures
        e.min <= e.waits(k).next_delay(),
        e.max matches Some(m) ==> e.waits(k).next_delay() <= m,
{
    lemma_waits_count(e, k);
}

/// Restarting: a curve fresh from a builder, after any number of waits and a
/// reset, is that fresh curve again, and so waits as it did first.
pub proof fn lemma_reset_restores_curve(b: ExponentialBackoffBuilder, k: nat)
    requires
        b.built() is Some,
    ensures
        b.built()->Some_0.waits(k).restarted() == b.built()->Some_0,
        b.built()->Some_0.waits(k).restarted().next_delay() == b.built()->Some_0.next_delay(),
{
    lemma_waits_count(b.built()->Some_0, k);
}

} // verus!
