//! Retry with exponential backoff and jitter.
//!
//! The policy decides; the caller runs the operation and sleeps. After each
//! failure the caller asks `on_failure` whether to try again and how long to
//! wait first. Durations are whole milliseconds, the multiplier is given in
//! thousandths.

use crate::error::Error;
use crate::text::{chars_of, contains_text, has_infix, has_prefix, lowercase, starts_with};
use vstd::prelude::*;

verus! {

/// How often and how patiently to retry.
#[derive(Debug, Clone, Copy, PartialEq, Eq, Structural)]
pub struct RetryConfig {
    /// How many times a failed operation is tried again.
    pub max_retries: usize,
    /// The wait before the first retry, in milliseconds.
    pub initial_backoff_ms: u64,
    /// The longest wait, in milliseconds.
    pub max_backoff_ms: u64,
    /// By how much the wait grows from one retry to the next, in
    /// thousandths: 2000 doubles it.
    pub multiplier_permille: u64,
    /// Whether each wait is shortened by a random factor between a half and
    /// one.
    pub jitter: bool,
}

/// The policy: a configuration that is consulted after each failure.
#[derive(Debug, Clone, Copy)]
pub struct RetryPolicy {
    config: RetryConfig,
}

/// Where a retried operation stands.
#[derive(Debug, Clone, Copy, PartialEq, Eq, Structural)]
pub struct RetryState {
    /// How many retries were granted so far.
    pub retries: usize,
    /// The wait before the next retry, before jitter, in milliseconds.
    pub backoff_ms: u64,
}

/// What to do after a failure.
#[derive(Debug, Clone, Copy, PartialEq, Eq, Structural)]
pub enum RetryDecision {
    /// Report the error.
    GiveUp,
    /// Wait this many milliseconds, then run the operation again.
    RetryAfter(u64),
}

/// The defaults: three retries, from one second up to a minute, doubling,
/// with jitter.
pub open spec fn default_config() -> RetryConfig {
    RetryConfig {
        max_retries: 3,
        initial_backoff_ms: 1000,
        max_backoff_ms: 60000,
        multiplier_permille: 2000,
        jitter: true,
    }
}

/// The wait that follows a wait of `backoff`: multiplied, rounded down, and
/// capped.
pub open spec fn next_backoff(c: RetryConfig, backoff: nat) -> nat {
    let grown = backoff * c.multiplier_permille / 1000;
    if grown < c.max_backoff_ms {
        grown as nat
    } else {
        c.max_backoff_ms as nat
    }
}

/// The wait before retry number `k`, counted from zero, before jitter.
pub open spec fn backoff_at(c: RetryConfig, k: nat) -> nat
    decreases k,
{
    if k == 0 {
        c.initial_backoff_ms as nat
    } else {
        next_backoff(c, backoff_at(c, (k - 1) as nat))
    }
}

/// The wait after jitter: the upper half of `backoff`, plus the share of
/// the lower half that the random sample picks.
pub open spec fn jittered(backoff: nat, sample: nat) -> nat {
    (backoff - backoff / 2 + (backoff / 2) * sample / 0x1_0000_0000) as nat
}

/// The wait that is actually slept.
pub open spec fn delay(c: RetryConfig, backoff: nat, sample: nat) -> nat {
    if c.jitter {
        jittered(backoff, sample)
    } else {
        backoff
    }
}

/// The decision after a failure.
pub open spec fn decision(c: RetryConfig, s: RetryState, retryable: bool, sample: u32)
    -> RetryDecision {
    if s.retries >= c.max_retries || !retryable {
        RetryDecision::GiveUp
    } else {
        RetryDecision::RetryAfter(delay(c, s.backoff_ms as nat, sample as nat) as u64)
    }
}

/// The state after a failure: unchanged on giving up, else one retry more
/// and the next wait.
pub open spec fn after_failure(c: RetryConfig, s: RetryState, retryable: bool) -> RetryState {
    if s.retries >= c.max_retries || !retryable {
        s
    } else {
        RetryState {
            retries: (s.retries + 1) as usize,
            backoff_ms: next_backoff(c, s.backoff_ms as nat) as u64,
        }
    }
}

/// A failure as the policy sees it: whether it may be retried, and the
/// random sample for the jitter.
pub struct Failure {
    pub retryable: bool,
    pub sample: u32,
}

/// What a run of failures costs.
pub struct Cost {
    /// How many retries were granted.
    pub retries: nat,
    /// How many milliseconds were slept in all.
    pub slept_ms: nat,
}

/// The cost of an operation that fails with `failures`, one after another,
/// from state `s` on. The run ends with the first failure on which the
/// policy gives up.
pub open spec fn cost(c: RetryConfig, s: RetryState, failures: Seq<Failure>) -> Cost
    decreases failures.len(),
{
    if failures.len() == 0 {
        Cost { retries: 0, slept_ms: 0 }
    } else {
        let f = failures[0];
        match decision(c, s, f.retryable, f.sample) {
            RetryDecision::GiveUp => Cost { retries: 0, slept_ms: 0 },
            RetryDecision::RetryAfter(d) => {
                let rest = cost(c, after_failure(c, s, f.retryable), failures.drop_first());
                Cost { retries: rest.retries + 1, slept_ms: rest.slept_ms + d as nat }
            },
        }
    }
}

/// The sum of the waits before the retries `from`, `from + 1`, ... up to the
/// last one that the configuration allows, before jitter.
pub open spec fn budget(c: RetryConfig, from: nat) -> nat
    decreases c.max_retries - from,
{
    if from >= c.max_retries {
        0
    } else {
        backoff_at(c, from) + budget(c, from + 1)
    }
}

/// `base` to the power `k`.
pub open spec fn power(base: nat, k: nat) -> nat
    decreases k,
{
    if k == 0 {
        1
    } else {
        base * power(base, (k - 1) as nat)
    }
}

/// The message reports a reply of the verification service with a status
/// of the server-error class or with the status for too many requests.
pub open spec fn names_transient_status(m: Seq<char>) -> bool {
    starts_with(m, "ECHIDNA returned status 5"@) || starts_with(m, "ECHIDNA returned status 429"@)
}

/// Whether an error is worth a retry: network errors always; errors of the
/// verification service when they report a server error or too many
/// requests, or when their message, in lower case, names a passing
/// condition; errors of the store when their message, in lower case, names
/// one; all others never.
pub open spec fn transient(e: Error) -> bool {
    match e {
        Error::Http(_) => true,
        Error::Echidna(m) => {
            let l = lowercase(m@);
            names_transient_status(m@) || contains_text(l, "timeout"@) || contains_text(
                l,
                "unavailable"@,
            ) || contains_text(l, "rate limit"@) || contains_text(l, "temporary"@) || contains_text(
                l,
                "503"@,
            ) || contains_text(l, "504"@)
        },
        Error::Sqlx(m) => {
            let l = lowercase(m@);
            contains_text(l, "connection"@) || contains_text(l, "timeout"@) || contains_text(
                l,
                "deadlock"@,
            )
        },
        _ => false,
    }
}

/// `rand::random` of the rand crate, at type `u32`. The value is random:
/// nothing is claimed of it.
#[verifier::external_body]
pub(crate) fn random_sample() -> u32 {
    rand::random::<u32>()
}

impl Default for RetryConfig {
    fn default() -> (r: Self)
        ensures
            r == default_config(),
    {
        RetryConfig {
            max_retries: 3,
            initial_backoff_ms: 1000,
            max_backoff_ms: 60000,
            multiplier_permille: 2000,
            jitter: true,
        }
    }
}

impl RetryConfig {
    /// The defaults with another number of retries.
    pub fn with_max_retries(max_retries: usize) -> (r: Self)
        ensures
            r == (RetryConfig { max_retries, ..default_config() }),
    {
        RetryConfig {
            max_retries,
            initial_backoff_ms: 1000,
            max_backoff_ms: 60000,
            multiplier_permille: 2000,
            jitter: true,
        }
    }

    /// The defaults with another number of retries and another first wait.
    pub fn with_backoff(max_retries: usize, initial_backoff_ms: u64) -> (r: Self)
        ensures
            r == (RetryConfig { max_retries, initial_backoff_ms, ..default_config() }),
    {
        RetryConfig {
            max_retries,
            initial_backoff_ms,
            max_backoff_ms: 60000,
            multiplier_permille: 2000,
            jitter: true,
        }
    }
}

impl Default for RetryPolicy {
    fn default() -> (r: Self)
        ensures
            r.spec_config() == default_config(),
    {
        RetryPolicy::new()
    }
}

impl RetryPolicy {
    /// The configuration of the policy.
    pub closed spec fn spec_config(&self) -> RetryConfig {
        self.config
    }

    /// The policy with the default configuration.
    pub fn new() -> (r: Self)
        ensures
            r.spec_config() == default_config(),
    {
        RetryPolicy { config: RetryConfig::default() }
    }

    /// The policy with the given configuration.
    pub fn with_config(config: RetryConfig) -> (r: Self)
        ensures
            r.spec_config() == config,
    {
        RetryPolicy { config }
    }

    /// The configuration of the policy.
    pub fn config(&self) -> (r: RetryConfig)
        ensures
            r == self.spec_config(),
    {
        self.config
    }

    /// The state before the first attempt.
    pub fn begin(&self) -> (r: RetryState)
        ensures
            r == (RetryState { retries: 0, backoff_ms: self.spec_config().initial_backoff_ms }),
    {
        RetryState { retries: 0, backoff_ms: self.config.initial_backoff_ms }
    }

    /// Decides after a failure, with `sample` as the random number for the
    /// jitter, and moves the state on.
    pub fn on_failure_with(&self, state: &mut RetryState, retryable: bool, sample: u32) -> (r:
        RetryDecision)
        ensures
            r == decision(self.spec_config(), *old(state), retryable, sample),
            *final(state) == after_failure(self.spec_config(), *old(state), retryable),
            r is RetryAfter ==> r->0 <= old(state).backoff_ms,
    {
        if state.retries >= self.config.max_retries || !retryable {
            return RetryDecision::GiveUp;
        }
        let backoff: u64 = state.backoff_ms;
        let wait: u64 = if self.config.jitter {
            let half: u64 = backoff / 2;
            assert(half as int * sample as int <= 0xffff_ffff_ffff_ffff * 0xffff_ffff) by (nonlinear_arith)
                requires
                    0 <= half as int <= 0xffff_ffff_ffff_ffff,
                    0 <= sample as int <= 0xffff_ffff,
            ;
            let share: u128 = (half as u128 * sample as u128) / 0x1_0000_0000u128;
            assert(share <= half) by (nonlinear_arith)
                requires
                    share as int == (half as int * sample as int) / 0x1_0000_0000int,
                    0 <= sample as int,
                    (sample as int) < 0x1_0000_0000int,
                    0 <= half as int,
            ;
            backoff - half + share as u64
        } else {
            backoff
        };
        assert(backoff as int * self.config.multiplier_permille as int <= 0xffff_ffff_ffff_ffff
            * 0xffff_ffff_ffff_ffff) by (nonlinear_arith)
            requires
                0 <= backoff as int <= 0xffff_ffff_ffff_ffff,
                0 <= self.config.multiplier_permille as int <= 0xffff_ffff_ffff_ffff,
        ;
        let grown: u128 = (backoff as u128 * self.config.multiplier_permille as u128) / 1000;
        let next: u64 = if grown < self.config.max_backoff_ms as u128 {
            grown as u64
        } else {
            self.config.max_backoff_ms
        };
        state.retries = state.retries + 1;
        state.backoff_ms = next;
        RetryDecision::RetryAfter(wait)
    }

    /// Decides after a failure and moves the state on. The jitter is drawn
    /// at random, so the wait is known only within its bounds.
    pub fn on_failure(&self, state: &mut RetryState, retryable: bool) -> (r: RetryDecision)
        ensures
            r is GiveUp <==> old(state).retries >= self.spec_config().max_retries || !retryable,
            *final(state) == after_failure(self.spec_config(), *old(state), retryable),
            r is RetryAfter ==> r->0 <= old(state).backoff_ms,
            r is RetryAfter && !self.spec_config().jitter ==> r->0 == old(state).backoff_ms,
            r is RetryAfter ==> r->0 >= old(state).backoff_ms - old(state).backoff_ms / 2,
    {
        let sample = random_sample();
        let ghost before = *state;
        let r = self.on_failure_with(state, retryable, sample);
        proof {
            if r is RetryAfter && self.spec_config().jitter {
                lemma_jitter_bounds(before.backoff_ms as nat, sample as nat);
            }
        }
        r
    }
}

/// A retry can have been granted: the operation can fail with an error
/// that the classifier accepts.
pub open spec fn retry_granted<T, E, Op: Fn() -> Result<T, E>, Cl: Fn(&E) -> bool>(
    operation: Op,
    is_retryable: Cl,
) -> bool {
    exists|e: E| #[trigger]
        call_ensures(operation, (), Err::<T, E>(e)) && call_ensures(is_retryable, (&e,), true)
}

/// What a retried operation came to.
#[derive(Debug)]
pub struct RetryReport<T, E> {
    /// The outcome of the last attempt.
    pub result: Result<T, E>,
    /// How many retries were granted; the attempts are one more.
    pub retries: usize,
    /// How many milliseconds were waited in all.
    pub slept_ms: u128,
}

impl RetryPolicy {
    /// Runs an operation until it succeeds, fails for good, or the retries
    /// are used up, and reports the cost. After each failure that may be
    /// retried, `sleep` is called with the wait in milliseconds. The
    /// outcome is that of the last attempt; the retries number at most
    /// `max_retries`, and the waits sum up to at most the scheduled ones.
    /// An error that comes back while retries are left is one that
    /// `is_retryable` turned down. A retry is granted only after an error
    /// that `is_retryable` accepted: an operation that succeeds at once, or
    /// fails with errors that are all turned down, is run once, with no
    /// retry and no wait.
    pub fn execute_counted<T, E>(
        &self,
        operation: impl Fn() -> Result<T, E>,
        is_retryable: impl Fn(&E) -> bool,
        sleep: impl Fn(u64),
    ) -> (r: RetryReport<T, E>)
        requires
            call_requires(operation, ()),
            forall|e: &E| call_requires(is_retryable, (e,)),
            forall|ms: u64| call_requires(sleep, (ms,)),
        ensures
            call_ensures(operation, (), r.result),
            r.retries <= self.spec_config().max_retries,
            r.slept_ms <= budget(self.spec_config(), 0),
            r.retries == 0 ==> r.slept_ms == 0,
            r.result is Err && r.retries < self.spec_config().max_retries ==> call_ensures(
                is_retryable,
                (&r.result->Err_0,),
                false,
            ),
            r.retries > 0 ==> retry_granted(operation, is_retryable),
    {
        let ghost c = self.spec_config();
        let mut state = self.begin();
        let mut slept: u128 = 0;
        loop
            invariant
                c == self.spec_config(),
                state.retries > 0 ==> retry_granted(operation, is_retryable),
                call_requires(operation, ()),
                forall|e: &E| call_requires(is_retryable, (e,)),
                forall|ms: u64| call_requires(sleep, (ms,)),
                on_schedule(c, state),
                slept + budget(c, state.retries as nat) <= budget(c, 0),
                slept <= state.retries * 0xffff_ffff_ffff_ffff,
            decreases c.max_retries - state.retries,
        {
            let outcome = operation();
            let error = match outcome {
                Ok(value) => {
                    return RetryReport { result: Ok(value), retries: state.retries, slept_ms: slept };
                },
                Err(e) => e,
            };
            if state.retries >= self.config.max_retries {
                return RetryReport { result: Err(error), retries: state.retries, slept_ms: slept };
            }
            let retryable = is_retryable(&error);
            let ghost before = state;
            match self.on_failure(&mut state, retryable) {
                RetryDecision::GiveUp => {
                    return RetryReport {
                        result: Err(error),
                        retries: state.retries,
                        slept_ms: slept,
                    };
                },
                RetryDecision::RetryAfter(wait) => {
                    proof {
                        lemma_backoff_bounded(c, (before.retries + 1) as nat);
                        assert(before.retries * 0xffff_ffff_ffff_ffff + 0xffff_ffff_ffff_ffff == (
                        before.retries + 1) * 0xffff_ffff_ffff_ffff) by (nonlinear_arith);
                        assert(state.retries * 0xffff_ffff_ffff_ffff <= 0xffff_ffff_ffff_ffff
                            * 0xffff_ffff_ffff_ffff) by (nonlinear_arith)
                            requires
                                0 <= state.retries <= 0xffff_ffff_ffff_ffff,
                        ;
                    }
                    assert(retry_granted(operation, is_retryable)) by {
                        assert(call_ensures(operation, (), Err::<T, E>(error)));
                        assert(call_ensures(is_retryable, (&error,), true));
                    }
                    sleep(wait);
                    slept = slept + wait as u128;
                },
            }
        }
    }

    /// Runs an operation with retries. The outcome is that of the last
    /// attempt. An error comes back only if the classifier turned it down,
    /// or after the retries were used up, each of them granted on an error
    /// that the classifier accepted.
    pub fn execute<T, E>(
        &self,
        operation: impl Fn() -> Result<T, E>,
        is_retryable: impl Fn(&E) -> bool,
        sleep: impl Fn(u64),
    ) -> (r: Result<T, E>)
        requires
            call_requires(operation, ()),
            forall|e: &E| call_requires(is_retryable, (e,)),
            forall|ms: u64| call_requires(sleep, (ms,)),
        ensures
            call_ensures(operation, (), r),
            r is Err ==> call_ensures(is_retryable, (&r->Err_0,), false)
                || self.spec_config().max_retries == 0 || retry_granted(operation, is_retryable),
    {
        self.execute_counted(operation, is_retryable, sleep).result
    }

    /// Runs an operation with retries on transient errors. An error comes
    /// back only if it is not transient, or after the retries were used up.
    pub fn execute_auto<T>(&self, operation: impl Fn() -> Result<T, Error>, sleep: impl Fn(u64)) -> (r:
        Result<T, Error>)
        requires
            call_requires(operation, ()),
            forall|ms: u64| call_requires(sleep, (ms,)),
        ensures
            call_ensures(operation, (), r),
            r is Err ==> !transient(r->Err_0) || self.spec_config().max_retries == 0
                || retry_granted(operation, is_transient_error),
    {
        self.execute(operation, is_transient_error, sleep)
    }
}

/// Runs an operation with up to `max_attempts` retries on transient
/// errors, under the default configuration otherwise. An error comes back
/// only if it is not transient, or after the retries were used up.
pub fn retry<T>(max_attempts: usize, operation: impl Fn() -> Result<T, Error>, sleep: impl Fn(u64))
    -> (r: Result<T, Error>)
    requires
        call_requires(operation, ()),
        forall|ms: u64| call_requires(sleep, (ms,)),
    ensures
        call_ensures(operation, (), r),
        r is Err ==> !transient(r->Err_0) || max_attempts == 0 || retry_granted(
            operation,
            is_transient_error,
        ),
{
    RetryPolicy::with_config(RetryConfig::with_max_retries(max_attempts)).execute_auto(
        operation,
        sleep,
    )
}

/// Runs an operation with up to `max_attempts` retries on transient
/// errors, with the given first wait. An error comes back only if it is not
/// transient, or after the retries were used up.
pub fn retry_with_backoff<T>(
    max_attempts: usize,
    initial_backoff_ms: u64,
    operation: impl Fn() -> Result<T, Error>,
    sleep: impl Fn(u64),
) -> (r: Result<T, Error>)
    requires
        call_requires(operation, ()),
        forall|ms: u64| call_requires(sleep, (ms,)),
    ensures
        call_ensures(operation, (), r),
        r is Err ==> !transient(r->Err_0) || max_attempts == 0 || retry_granted(
            operation,
            is_transient_error,
        ),
{
    RetryPolicy::with_config(RetryConfig::with_backoff(max_attempts, initial_backoff_ms)).execute_auto(
        operation,
        sleep,
    )
}

/// Whether an error is worth a retry.
pub fn is_transient_error(error: &Error) -> (r: bool)
    ensures
        r == transient(*error),
{
    match error {
        Error::Http(_) => true,
        Error::Echidna(msg) => {
            let raw = chars_of(msg.as_str());
            let lower = chars_of(msg.as_str().to_lowercase().as_str());
            has_prefix(&raw, &chars_of("ECHIDNA returned status 5")) || has_prefix(
                &raw,
                &chars_of("ECHIDNA returned status 429"),
            ) || has_infix(&lower, &chars_of("timeout")) || has_infix(&lower, &chars_of("unavailable"))
                || has_infix(&lower, &chars_of("rate limit")) || has_infix(
                &lower,
                &chars_of("temporary"),
            ) || has_infix(&lower, &chars_of("503")) || has_infix(&lower, &chars_of("504"))
        },
        Error::Sqlx(msg) => {
            let lower = chars_of(msg.as_str().to_lowercase().as_str());
            has_infix(&lower, &chars_of("connection")) || has_infix(&lower, &chars_of("timeout"))
                || has_infix(&lower, &chars_of("deadlock"))
        },
        _ => false,
    }
}

/// A wait after jitter is at most the wait before it, and at least its
/// upper half.
pub proof fn lemma_jitter_bounds(backoff: nat, sample: nat)
    requires
        sample < 0x1_0000_0000,
    ensures
        backoff - backoff / 2 <= jittered(backoff, sample) <= backoff,
{
    let half = backoff / 2;
    assert(0 <= half * sample / 0x1_0000_0000 <= half) by (nonlinear_arith)
        requires
            sample < 0x1_0000_0000,
            half >= 0,
    ;
}

/// A state that the policy reaches: its wait is the one for its number of
/// retries.
pub open spec fn on_schedule(c: RetryConfig, s: RetryState) -> bool {
    s.retries <= c.max_retries && s.backoff_ms == backoff_at(c, s.retries as nat)
}

/// The wait before any retry fits in 64 bits and respects the cap, the
/// first one excepted, which is as configured.
pub proof fn lemma_backoff_bounded(c: RetryConfig, k: nat)
    ensures
        backoff_at(c, k) <= u64::MAX,
        k > 0 ==> backoff_at(c, k) <= c.max_backoff_ms,
    decreases k,
{
    if k > 0 {
        lemma_backoff_bounded(c, (k - 1) as nat);
    }
}

/// Bounded retries and bounded waiting: whatever the failures and the
/// random samples, an operation is run at most `max_retries + 1` times, and
/// the time slept in all is at most the sum of the scheduled waits, which
/// is the jitter's upper bound.
pub proof fn law_retry_bounds(c: RetryConfig, s: RetryState, failures: Seq<Failure>)
    requires
        on_schedule(c, s),
    ensures
        s.retries + cost(c, s, failures).retries <= c.max_retries,
        cost(c, s, failures).slept_ms <= budget(c, s.retries as nat),
    decreases failures.len(),
{
    if failures.len() > 0 {
        let f = failures[0];
        if decision(c, s, f.retryable, f.sample) is RetryAfter {
            let next = after_failure(c, s, f.retryable);
            lemma_backoff_bounded(c, (s.retries + 1) as nat);
            assert(on_schedule(c, next));
            law_retry_bounds(c, next, failures.drop_first());
            if c.jitter {
                lemma_jitter_bounds(s.backoff_ms as nat, f.sample as nat);
            }
        }
    }
}

/// From the first attempt on: at most `max_retries + 1` attempts, and at
/// most the sum of the scheduled waits slept.
pub proof fn law_retry_total(c: RetryConfig, failures: Seq<Failure>)
    ensures
        ({
            let start = RetryState { retries: 0, backoff_ms: c.initial_backoff_ms };
            &&& cost(c, start, failures).retries + 1 <= c.max_retries + 1
            &&& cost(c, start, failures).slept_ms <= budget(c, 0)
        }),
{
    let start = RetryState { retries: 0, backoff_ms: c.initial_backoff_ms };
    law_retry_bounds(c, start, failures);
}

/// The scheduled wait before retry `k` is at most the first wait times the
/// multiplier to the power `k`: in thousandths,
/// `backoff_at(k) * 1000^k <= initial * multiplier^k`.
pub proof fn law_backoff_geometric(c: RetryConfig, k: nat)
    ensures
        backoff_at(c, k) * power(1000, k) <= c.initial_backoff_ms * power(
            c.multiplier_permille as nat,
            k,
        ),
    decreases k,
{
    if k > 0 {
        let j = (k - 1) as nat;
        law_backoff_geometric(c, j);
        let b = backoff_at(c, j);
        let m = c.multiplier_permille as nat;
        let p = power(1000, j);
        let q = power(m, j);
        let i = c.initial_backoff_ms as nat;
        let n = next_backoff(c, b);
        assert(n * 1000 <= b * m) by (nonlinear_arith)
            requires
                n <= b * m / 1000,
        ;
        assert(n * (1000 * p) <= i * (m * q)) by (nonlinear_arith)
            requires
                n * 1000 <= b * m,
                b * p <= i * q,
        ;
    }
}

} // verus!
