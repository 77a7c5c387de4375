use vstd::prelude::*;

use vstd::arithmetic::div_mod::lemma_div_is_ordered_by_denominator;

use crate::backoff::{capped, Backoff, BackoffBuilder, ExponentialBackoff, ExponentialBackoffBuilder};
use crate::errors::AdaptiveError;

verus! {

/// One whole unit of a multiplier or running factor, which count thousandths.
pub const UNIT: u64 = 1000;

/// `amount` divided by `factor`, where `factor` counts thousandths.
pub open spec fn damped(amount: u64, factor: u64) -> int {
    (amount as int * UNIT as int) / (factor as int)
}

/// `x` or, where it is negative, zero.
pub open spec fn floor_zero(x: int) -> int {
    if x < 0 {
        0
    } else {
        x
    }
}

/// A delay that is tuned by feedback: failures push it up, successes pull it down.
pub trait Adaptable: Sized {
    /// Whether the state admits feedback.
    spec fn ready(&self) -> bool;

    /// The running delay, in nanoseconds.
    spec fn current(&self) -> u64;

    /// The state after one success.
    spec fn succeeded(&self) -> Self;

    /// The state after one failure.
    spec fn failed(&self) -> Self;

    /// Records a success and returns the new running delay.
    fn success(&mut self) -> (d: u64)
        requires
            old(self).ready(),
        ensures
            *final(self) == old(self).succeeded(),
            final(self).ready(),
            d == final(self).current(),
    ;

    /// Records a failure and returns the new running delay.
    fn fail(&mut self) -> (d: u64)
        requires
            old(self).ready(),
        ensures
            *final(self) == old(self).failed(),
            final(self).ready(),
            d == final(self).current(),
    ;
}

/// A running delay over an inner curve `B`.
///
/// A failure adds the inner curve's next delay divided by the running fail
/// factor; a success resets the inner curve and takes off the base delay
/// divided by the running success factor, stopping at zero. Each event first
/// adds its multiplier to its running factor, so later events of a kind weigh
/// less. The running delay starts at zero and returns to the base delay on
/// `reset`.
#[derive(Debug)]
pub struct Adaptive<B: Backoff> {
    /// The inner curve, which grows on failures.
    pub backoff: B,
    /// Added to the fail factor on each failure, in thousandths; positive.
    pub fail_mult: u64,
    /// Added to the success factor on each success, in thousandths; positive.
    pub success_mult: u64,
    /// The running fail factor, in thousandths.
    pub fail_factor: u64,
    /// The running success factor, in thousandths.
    pub success_factor: u64,
    /// The delay that `reset` returns to, in nanoseconds.
    pub base_delay: u64,
    /// The running delay, in nanoseconds.
    pub delay: u64,
}

impl<B: Backoff> Adaptive<B> {
    /// Both multipliers are positive, so no running factor is zero once used.
    pub open spec fn wf(self) -> bool {
        self.fail_mult > 0 && self.success_mult > 0
    }

    /// The state after `n` successes.
    pub open spec fn successes(self, n: nat) -> Adaptive<B>
        decreases n,
    {
        if n == 0 {
            self
        } else {
            self.successes((n - 1) as nat).succeeded()
        }
    }

    /// The state after one call.
    pub open spec fn step(self, e: Event) -> Adaptive<B> {
        match e {
            Event::Success => self.succeeded(),
            Event::Failure => self.failed(),
            Event::Wait => self.waited(),
            Event::Reset => self.restarted(),
        }
    }

    /// The state after a run of calls, in order.
    pub open spec fn feedback(self, events: Seq<Event>) -> Adaptive<B>
        decreases events.len(),
    {
        if events.len() == 0 {
            self
        } else {
            self.feedback(events.drop_last()).step(events.last())
        }
    }
}

/// One call on an adaptive backoff, for stating what holds of runs of them.
pub enum Event {
    /// A call of `success`.
    Success,
    /// A call of `fail`.
    Failure,
    /// A call of `wait`.
    Wait,
    /// A call of `reset`.
    Reset,
}

impl<B: Backoff + Default> Default for Adaptive<B> {
    /// An adaptive backoff over a default curve with every number zero; its
    /// multipliers must be set before it takes feedback.
    fn default() -> (r: Adaptive<B>)
        ensures
            r.fail_mult == 0,
            r.success_mult == 0,
            r.fail_factor == 0,
            r.success_factor == 0,
            r.base_delay == 0,
            r.delay == 0,
    {
        Adaptive {
            backoff: B::default(),
            fail_mult: 0,
            success_mult: 0,
            fail_factor: 0,
            success_factor: 0,
            base_delay: 0,
            delay: 0,
        }
    }
}

/// `amount * UNIT / factor`, exactly.
fn damp(amount: u64, factor: u64) -> (r: u128)
    requires
        factor > 0,
    ensures
        r == damped(amount, factor),
{
    (amount as u128 * UNIT as u128) / (factor as u128)
}

impl<B: Backoff> Adaptable for Adaptive<B> {
    open spec fn ready(&self) -> bool {
        self.wf()
    }

    open spec fn current(&self) -> u64 {
        self.delay
    }

    open spec fn succeeded(&self) -> Adaptive<B> {
        let sf = capped(self.success_factor + self.success_mult);
        Adaptive {
            backoff: self.backoff.restarted(),
            success_factor: sf,
            delay: floor_zero(self.delay - damped(self.base_delay, sf)) as u64,
            ..*self
        }
    }

    open spec fn failed(&self) -> Adaptive<B> {
        let ff = capped(self.fail_factor + self.fail_mult);
        Adaptive {
            backoff: self.backoff.waited(),
            fail_factor: ff,
            delay: capped(self.delay + damped(self.backoff.next_delay(), ff)),
            ..*self
        }
    }

    fn success(&mut self) -> (d: u64) {
        self.backoff.reset();
        self.success_factor = self.success_factor.saturating_add(self.success_mult);
        let step = damp(self.base_delay, self.success_factor);
        if (self.delay as u128) >= step {
            self.delay = (self.delay as u128 - step) as u64;
        } else {
            self.delay = 0;
        }
        self.delay
    }

    fn fail(&mut self) -> (d: u64) {
        self.fail_factor = self.fail_factor.saturating_add(self.fail_mult);
        let next = self.backoff.wait();
        let step = damp(next, self.fail_factor);
        let sum = self.delay as u128 + step;
        if sum > u64::MAX as u128 {
            self.delay = u64::MAX;
        } else {
            self.delay = sum as u64;
        }
        self.delay
    }
}

impl<B: Backoff> Backoff for Adaptive<B> {
    open spec fn next_delay(&self) -> u64 {
        self.delay
    }

    open spec fn waited(&self) -> Adaptive<B> {
        *self
    }

    open spec fn restarted(&self) -> Adaptive<B> {
        Adaptive {
            backoff: self.backoff.restarted(),
            delay: self.base_delay,
            success_factor: 0,
            fail_factor: 0,
            ..*self
        }
    }

    /// The running delay; nothing changes.
    fn wait(&mut self) -> (d: u64) {
        self.delay
    }

    /// Back to the base delay, with both running factors cleared and the
    /// inner curve reset.
    fn reset(&mut self) {
        self.backoff.reset();
        self.delay = self.base_delay;
        self.success_factor = 0;
        self.fail_factor = 0;
    }

    proof fn lemma_restart_forgets(b: Adaptive<B>) {
        B::lemma_restart_forgets(b.backoff);
    }
}

/// `o`'s value, or `d` where it is absent.
pub open spec fn or_default(o: Option<u64>, d: u64) -> u64 {
    match o {
        Some(v) => v,
        None => d,
    }
}

/// The configuration of an `Adaptive` backoff. Exactly one of `backoff` and
/// `builder` supplies the inner curve; the multipliers default to one whole
/// unit and must be positive; the running factors start at zero where not
/// given; the base delay, where not given, is the inner curve's first delay.
#[derive(Debug)]
pub struct AdaptiveBuilder<B: Backoff, BB: BackoffBuilder<B>> {
    /// A configuration that builds the inner curve.
    pub builder: Option<BB>,
    /// The inner curve itself.
    pub backoff: Option<B>,
    /// The fail multiplier, in thousandths.
    pub fail_mult: Option<u64>,
    /// The success multiplier, in thousandths.
    pub success_mult: Option<u64>,
    /// The first fail factor, in thousandths.
    pub fail_factor: Option<u64>,
    /// The first success factor, in thousandths.
    pub success_factor: Option<u64>,
    /// The base delay, in nanoseconds.
    pub initial_delay: Option<u64>,
}

impl<B: Backoff, BB: BackoffBuilder<B>> Default for AdaptiveBuilder<B, BB> {
    fn default() -> (r: AdaptiveBuilder<B, BB>)
        ensures
            r.builder is None,
            r.backoff is None,
            r.fail_mult is None,
            r.success_mult is None,
            r.fail_factor is None,
            r.success_factor is None,
            r.initial_delay is None,
    {
        AdaptiveBuilder {
            builder: None,
            backoff: None,
            fail_mult: None,
            success_mult: None,
            fail_factor: None,
            success_factor: None,
            initial_delay: None,
        }
    }
}

impl<B: Backoff, BB: BackoffBuilder<B>> AdaptiveBuilder<B, BB> {
    /// The inner curve, where exactly one source gives one.
    pub open spec fn inner(self) -> Option<B> {
        match (self.backoff, self.builder) {
            (Some(b), None) => Some(b),
            (None, Some(bb)) => bb.built(),
            _ => None,
        }
    }

    /// What `build` yields: the adaptive backoff, or `None` where the
    /// configuration is refused.
    pub open spec fn built(self) -> Option<Adaptive<B>> {
        let fail_mult = or_default(self.fail_mult, UNIT);
        let success_mult = or_default(self.success_mult, UNIT);
        match self.inner() {
            Some(b) => if fail_mult == 0 || success_mult == 0 {
                None
            } else {
                Some(
                    Adaptive {
                        backoff: match self.initial_delay {
                            Some(_) => b,
                            None => b.waited().restarted(),
                        },
                        fail_mult,
                        success_mult,
                        fail_factor: or_default(self.fail_factor, 0),
                        success_factor: or_default(self.success_factor, 0),
                        base_delay: match self.initial_delay {
                            Some(d) => d,
                            None => b.next_delay(),
                        },
                        delay: 0,
                    },
                )
            },
            None => None,
        }
    }

    /// Sets the inner curve, which grows on failures. A configuration that
    /// already holds a curve builder then refuses to build.
    pub fn backoff(&mut self, backoff: B) -> (r: &mut AdaptiveBuilder<B, BB>)
        ensures
            *r == (AdaptiveBuilder { backoff: Some(backoff), ..*old(self) }),
            *final(self) == *final(r),
    {
        self.backoff = Some(backoff);
        self
    }

    /// Sets the fail multiplier, in thousandths, added to the fail factor on each failure.
    pub fn fail_mult(&mut self, m: u64) -> (r: &mut AdaptiveBuilder<B, BB>)
        ensures
            *r == (AdaptiveBuilder { fail_mult: Some(m), ..*old(self) }),
            *final(self) == *final(r),
    {
        self.fail_mult = Some(m);
        self
    }

    /// Sets the success multiplier, in thousandths, added to the success factor on each success.
    pub fn success_mult(&mut self, m: u64) -> (r: &mut AdaptiveBuilder<B, BB>)
        ensures
            *r == (AdaptiveBuilder { success_mult: Some(m), ..*old(self) }),
            *final(self) == *final(r),
    {
        self.success_mult = Some(m);
        self
    }

    /// Sets the first fail factor, in thousandths; it defaults to zero.
    pub fn fail_factor(&mut self, f: u64) -> (r: &mut AdaptiveBuilder<B, BB>)
        ensures
            *r == (AdaptiveBuilder { fail_factor: Some(f), ..*old(self) }),
            *final(self) == *final(r),
    {
        self.fail_factor = Some(f);
        self
    }

    /// Sets the first success factor, in thousandths; it defaults to zero.
    pub fn success_factor(&mut self, f: u64) -> (r: &mut AdaptiveBuilder<B, BB>)
        ensures
            *r == (AdaptiveBuilder { success_factor: Some(f), ..*old(self) }),
            *final(self) == *final(r),
    {
        self.success_factor = Some(f);
        self
    }

    /// Sets the base delay, in nanoseconds, that `reset` returns to. It
    /// defaults to the inner curve's first delay.
    pub fn initial_delay(&mut self, d: u64) -> (r: &mut AdaptiveBuilder<B, BB>)
        ensures
            *r == (AdaptiveBuilder { initial_delay: Some(d), ..*old(self) }),
            *final(self) == *final(r),
    {
        self.initial_delay = Some(d);
        self
    }

    /// The same as `initial_delay`.
    pub fn base_delay(&mut self, d: u64) -> (r: &mut AdaptiveBuilder<B, BB>)
        ensures
            *r == (AdaptiveBuilder { initial_delay: Some(d), ..*old(self) }),
            *final(self) == *final(r),
    {
        self.initial_delay(d)
    }

    /// The adaptive backoff that this configuration describes, or
    /// `BuilderFailure` where both or neither of the curve's sources are
    /// given, the curve builder refuses, or a multiplier is zero.
    pub fn build(self) -> (r: Result<Adaptive<B>, AdaptiveError>)
        ensures
            match r {
                Ok(a) => self.built() == Some(a) && a.wf(),
                Err(e) => self.built() is None && e is BuilderFailure,
            },
    {
        let AdaptiveBuilder {
            builder,
            backoff,
            fail_mult,
            success_mult,
            fail_factor,
            success_factor,
            initial_delay,
        } = self;
        let mut inner = match (backoff, builder) {
            (Some(_), Some(_)) => {
                return Err(
                    AdaptiveError::BuilderFailure {
                        msg: "a curve and a curve builder cannot both be given".to_string(),
                    },
                );
            },
            (Some(b), None) => b,
            (None, Some(mut bb)) => match bb.build() {
                Ok(b) => b,
                Err(e) => {
                    return Err(e);
                },
            },
            (None, None) => {
                return Err(
                    AdaptiveError::BuilderFailure {
                        msg: "no curve given: set a curve or start from a curve builder".to_string(),
                    },
                );
            },
        };
        let fail_mult = match fail_mult {
            Some(m) => m,
            None => UNIT,
        };
        let success_mult = match success_mult {
            Some(m) => m,
            None => UNIT,
        };
        if fail_mult == 0 || success_mult == 0 {
            return Err(
                AdaptiveError::BuilderFailure {
                    msg: "the fail and success multipliers must be positive".to_string(),
                },
            );
        }
        let base_delay = match initial_delay {
            Some(d) => d,
            None => {
                let d = inner.wait();
                inner.reset();
                d
            },
        };
        Ok(
            Adaptive {
                backoff: inner,
                fail_mult,
                success_mult,
                fail_factor: match fail_factor {
                    Some(f) => f,
                    None => 0,
                },
                success_factor: match success_factor {
                    Some(f) => f,
                    None => 0,
                },
                base_delay,
                delay: 0,
            },
        )
    }
}

impl ExponentialBackoffBuilder {
    /// An adaptive configuration whose inner curve this configuration builds.
    pub fn adaptive(&mut self) -> (r: AdaptiveBuilder<ExponentialBackoff, ExponentialBackoffBuilder>)
        ensures
            *final(self) == *old(self),
            r.builder == Some(*old(self)),
            r.backoff is None,
            r.fail_mult is None,
            r.success_mult is None,
            r.fail_factor is None,
            r.success_factor is None,
            r.initial_delay is None,
    {
        AdaptiveBuilder {
            builder: Some(ExponentialBackoffBuilder { min: self.min, max: self.max, factor: self.factor }),
            backoff: None,
            fail_mult: None,
            success_mult: None,
            fail_factor: None,
            success_factor: None,
            initial_delay: None,
        }
    }
}

/// Successes leave the base delay and the success multiplier alone.
pub proof fn lemma_successes_keep<B: Backoff>(a: Adaptive<B>, n: nat)
    ensures
        a.successes(n).base_delay == a.base_delay,
        a.successes(n).success_mult == a.success_mult,
    decreases n,
{
    if n > 0 {
        lemma_successes_keep(a, (n - 1) as nat);
    }
}

/// From a success factor of zero, each success adds the multiplier to it,
/// saturating at `u64::MAX`.
pub proof fn lemma_successes_factor<B: Backoff>(a: Adaptive<B>, n: nat)
    requires
        a.success_factor == 0,
    ensures
        a.successes(n).success_factor == capped(n * a.success_mult),
    decreases n,
{
    lemma_successes_keep(a, n);
    if n > 0 {
        let m = a.success_mult;
        lemma_successes_factor(a, (n - 1) as nat);
        lemma_successes_keep(a, (n - 1) as nat);
        let prev = a.successes((n - 1) as nat);
        assert((n - 1) * m + m == n * m) by (nonlinear_arith);
        assert((n - 1) * m <= n * m) by (nonlinear_arith)
            requires
                n >= 1,
        ;
        assert(a.successes(n) == prev.succeeded());
        assert(a.successes(n).success_factor == capped(prev.success_factor + prev.success_mult));
    } else {
        assert(n * a.success_mult == 0) by (nonlinear_arith)
            requires
                n == 0,
        ;
    }
}

/// A positive running factor takes off no negative step.
proof fn lemma_damped_nonnegative(amount: u64, factor: u64)
    requires
        factor > 0,
    ensures
        damped(amount, factor) >= 0,
{
    let x = amount as int * UNIT as int;
    assert(x / (factor as int) >= 0) by (nonlinear_arith)
        requires
            x >= 0,
            factor > 0,
    ;
}

/// From a running delay of zero, successes alone keep it at zero.
pub proof fn lemma_successes_stay_at_zero<B: Backoff>(a: Adaptive<B>, n: nat)
    requires
        a.wf(),
        a.delay == 0,
    ensures
        a.successes(n).current() == 0,
    decreases n,
{
    if n > 0 {
        lemma_successes_stay_at_zero(a, (n - 1) as nat);
        lemma_successes_keep(a, (n - 1) as nat);
        let prev = a.successes((n - 1) as nat);
        lemma_damped_nonnegative(prev.base_delay, capped(prev.success_factor + prev.success_mult));
    }
}

/// Cold start: a freshly built adaptive backoff that sees only successes
/// always waits zero.
pub proof fn lemma_cold_start_successes<B: Backoff, BB: BackoffBuilder<B>>(
    ab: AdaptiveBuilder<B, BB>,
    n: nat,
)
    requires
        ab.built() is Some,
    ensures
        ab.built()->Some_0.successes(n).current() == 0,
        ab.built()->Some_0.successes(n).next_delay() == 0,
{
    lemma_successes_stay_at_zero(ab.built()->Some_0, n);
}

/// Decay: from a success factor of zero (after a reset, say, and a failure),
/// the i-th success sets the success factor to `i * success_mult`
/// (saturating at `u64::MAX`) and the delay to
/// `max(0, previous - base_delay / success_factor)`. The delay never grows,
/// falls strictly while it is positive and the step is not below one
/// nanosecond, and each decrement is no larger than the one before.
pub proof fn lemma_success_decay<B: Backoff>(a: Adaptive<B>, i: nat)
    requires
        a.wf(),
        a.success_factor == 0,
        i >= 1,
    ensures
        a.successes(i).success_factor == capped(i * a.success_mult),
        i * a.success_mult <= u64::MAX ==> a.successes(i).success_factor == i * a.success_mult,
        a.successes(i).current() == floor_zero(
            a.successes((i - 1) as nat).current() - damped(
                a.base_delay,
                capped(i * a.success_mult),
            ),
        ),
        a.successes(i).current() <= a.successes((i - 1) as nat).current(),
        a.successes((i - 1) as nat).current() > 0 && damped(
            a.base_delay,
            capped(i * a.success_mult),
        ) > 0 ==> a.successes(i).current() < a.successes((i - 1) as nat).current(),
        a.successes(i).current() - a.successes(i + 1).current() <= a.successes(
            (i - 1) as nat,
        ).current() - a.successes(i).current(),
{
    let m = a.success_mult;
    assert(i * m <= (i + 1) * m) by (nonlinear_arith);
    assert(i * m >= 1) by (nonlinear_arith)
        requires
            i >= 1,
            m >= 1,
    ;
    lemma_successes_factor(a, (i - 1) as nat);
    lemma_successes_factor(a, i);
    lemma_successes_factor(a, i + 1);
    lemma_successes_keep(a, (i - 1) as nat);
    lemma_successes_keep(a, i);
    let prev = a.successes((i - 1) as nat);
    let cur = a.successes(i);
    let next = a.successes(i + 1);
    assert(cur == prev.succeeded());
    assert(next == cur.succeeded());
    let x = a.base_delay as int * UNIT as int;
    lemma_div_is_ordered_by_denominator(x, capped(i * m) as int, capped((i + 1) * m) as int);
}

/// No call changes the configuration, and a restart after any run of calls
/// leaves the inner curve as a restart at the start would.
pub proof fn lemma_feedback_keeps<B: Backoff>(a: Adaptive<B>, events: Seq<Event>)
    ensures
        a.feedback(events).base_delay == a.base_delay,
        a.feedback(events).fail_mult == a.fail_mult,
        a.feedback(events).success_mult == a.success_mult,
        a.feedback(events).backoff.restarted() == a.backoff.restarted(),
    decreases events.len(),
{
    if events.len() > 0 {
        let prev = a.feedback(events.drop_last());
        lemma_feedback_keeps(a, events.drop_last());
        B::lemma_restart_forgets(prev.backoff);
        B::lemma_restart_forgets(prev.backoff.restarted());
    }
}

/// Reset: after any run of calls, a reset brings the running delay back to
/// exactly the base delay, which no call changes.
pub proof fn lemma_reset_clears<B: Backoff>(a: Adaptive<B>, events: Seq<Event>)
    ensures
        a.feedback(events).base_delay == a.base_delay,
        a.feedback(events).restarted().current() == a.base_delay,
        a.feedback(events).restarted().next_delay() == a.base_delay,
{
    lemma_feedback_keeps(a, events);
}

/// Reset forgets history: two runs of calls from one state, each followed by
/// a reset, end in the same state, which then answers every later run alike.
pub proof fn lemma_reset_forgets_history<B: Backoff>(
    a: Adaptive<B>,
    first: Seq<Event>,
    second: Seq<Event>,
)
    ensures
        a.feedback(first).restarted() == a.feedback(second).restarted(),
        a.feedback(first).restarted() == a.restarted(),
{
    lemma_feedback_keeps(a, first);
    lemma_feedback_keeps(a, second);
}

/// Reset is idempotent: two resets leave the state that one does.
pub proof fn lemma_reset_idempotent<B: Backoff>(a: Adaptive<B>)
    ensures
        a.restarted().restarted() == a.restarted(),
{
    B::lemma_restart_forgets(a.backoff);
}

/// Construction: an adaptive configuration is refused where both or neither
/// of the curve's sources are given, where the exponential curve's minimum or
/// factor is missing, or where a multiplier is zero; otherwise it builds, with a running
/// delay of zero.
pub proof fn lemma_construction_validation(
    ab: AdaptiveBuilder<ExponentialBackoff, ExponentialBackoffBuilder>,
)
    ensures
        ab.backoff is Some && ab.builder is Some ==> ab.built() is None,
        ab.backoff is None && ab.builder is None ==> ab.built() is None,
        ab.backoff is None && ab.builder is Some && ab.builder->Some_0.min is None ==> ab.built() is None,
        ab.backoff is None && ab.builder is Some && ab.builder->Some_0.factor is None ==> ab.built() is None,
        ab.fail_mult == Some(0u64) || ab.success_mult == Some(0u64) ==> ab.built() is None,
        ab.built() is Some <==> (ab.inner() is Some && or_default(ab.fail_mult, UNIT) > 0
            && or_default(ab.success_mult, UNIT) > 0),
        ab.built() matches Some(a) ==> a.wf() && a.current() == 0,
{
}

} // verus!
