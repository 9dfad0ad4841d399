//! Retry policy: the backoff schedule and the retry-eligibility decision.
//!
//! The backoff schedule starts at `initial_delay_ms` and multiplies by a
//! factor held in hundredths (`multiplier_hundredths == 200` doubles the
//! delay), flooring to whole milliseconds at every step and capping the
//! result at `max_delay_ms`.
//!
//! An error is retried only when the taxonomy calls it retryable *and* the
//! policy's own switches allow its category: `retry_on_timeout` for
//! timeouts, `retry_on_network_error` for network failures, and membership
//! in `retry_on_status` for HTTP statuses. The policy restricts the fixed
//! taxonomy predicate; it never extends it.

use vstd::arithmetic::div_mod::lemma_div_by_multiple;
use vstd::arithmetic::div_mod::lemma_div_is_ordered;
use vstd::arithmetic::mul::lemma_mul_inequality;
use vstd::arithmetic::mul::lemma_mul_upper_bound;
use vstd::arithmetic::power::lemma_pow0;
use vstd::arithmetic::power::pow;
use vstd::prelude::*;

use crate::error::Error;

verus! {

/// Retry configuration: the retry budget, the backoff schedule, and the
/// failure categories that may be retried.
#[derive(Debug)]
pub struct RetryConfig {
    /// Retries allowed beyond the first attempt.
    pub max_retries: u32,
    /// Delay before the first retry, in milliseconds.
    pub initial_delay_ms: u64,
    /// Cap on every delay, in milliseconds.
    pub max_delay_ms: u64,
    /// Backoff factor in hundredths: 200 doubles, 150 grows by half.
    pub multiplier_hundredths: u32,
    /// Whether timeouts may be retried.
    pub retry_on_timeout: bool,
    /// Whether network failures may be retried.
    pub retry_on_network_error: bool,
    /// The HTTP statuses that may be retried.
    pub retry_on_status: Vec<u16>,
}

/// The uncapped backoff value before retry number `k` (1-based): the
/// initial delay multiplied by the factor `k - 1` times, floored to whole
/// milliseconds at each step.
pub open spec fn delay_raw(d: nat, h: nat, k: nat) -> nat
    decreases k,
{
    if k <= 1 {
        d
    } else {
        delay_raw(d, h, (k - 1) as nat) * h / 100
    }
}

impl RetryConfig {
    /// The delay before retry number `k` (1-based): the backoff value,
    /// capped at `max_delay_ms`.
    pub open spec fn delay_spec(&self, k: nat) -> nat {
        let raw = delay_raw(
            self.initial_delay_ms as nat,
            self.multiplier_hundredths as nat,
            k,
        );
        if raw >= self.max_delay_ms as nat {
            self.max_delay_ms as nat
        } else {
            raw
        }
    }

    /// Whether this policy's own switches allow retrying `e`.
    pub open spec fn allows_spec(&self, e: &Error) -> bool {
        match e {
            Error::Timeout { .. } => self.retry_on_timeout,
            Error::Network { .. } => self.retry_on_network_error,
            Error::Http { status, .. } => self.retry_on_status@.contains(*status),
            _ => false,
        }
    }

    /// Whether the retry loop reissues a request that failed with `e`:
    /// the taxonomy must call `e` retryable and this policy must allow its
    /// category.
    pub open spec fn retries_spec(&self, e: &Error) -> bool {
        e.is_retryable_spec() && self.allows_spec(e)
    }
}

impl Default for RetryConfig {
    /// Three retries, 100 ms doubling up to 10 s, every retryable category
    /// allowed.
    fn default() -> (r: Self)
        ensures
            r.max_retries == 3,
            r.initial_delay_ms == 100,
            r.max_delay_ms == 10000,
            r.multiplier_hundredths == 200,
            r.retry_on_timeout,
            r.retry_on_network_error,
            r.retry_on_status@ == seq![408u16, 429u16, 500u16, 502u16, 503u16, 504u16],
    {
        let mut retry_on_status: Vec<u16> = Vec::new();
        retry_on_status.push(408);
        retry_on_status.push(429);
        retry_on_status.push(500);
        retry_on_status.push(502);
        retry_on_status.push(503);
        retry_on_status.push(504);
        proof {
            assert(retry_on_status@ =~= seq![408u16, 429u16, 500u16, 502u16, 503u16, 504u16]);
        }
        RetryConfig {
            max_retries: 3,
            initial_delay_ms: 100,
            max_delay_ms: 10000,
            multiplier_hundredths: 200,
            retry_on_timeout: true,
            retry_on_network_error: true,
            retry_on_status,
        }
    }
}

proof fn lemma_delay_raw_monotone(d: nat, h: nat, k: nat, j: nat)
    requires
        h >= 100,
        1 <= k <= j,
    ensures
        delay_raw(d, h, k) <= delay_raw(d, h, j),
    decreases j - k,
{
    if j > k {
        lemma_delay_raw_monotone(d, h, k, (j - 1) as nat);
        let v = delay_raw(d, h, (j - 1) as nat);
        lemma_mul_inequality(100, h as int, v as int);
        lemma_div_is_ordered(v as int * 100, v as int * (h as int), 100);
        lemma_div_by_multiple(v as int, 100);
    }
}

proof fn lemma_delay_raw_step_shrinks(d: nat, h: nat, k: nat)
    requires
        k >= 2,
    ensures
        h <= 100 ==> delay_raw(d, h, k) <= delay_raw(d, h, (k - 1) as nat),
{
    if h <= 100 {
        let v = delay_raw(d, h, (k - 1) as nat);
        lemma_mul_inequality(h as int, 100, v as int);
        lemma_div_is_ordered(v as int * (h as int), v as int * 100, 100);
        lemma_div_by_multiple(v as int, 100);
    }
}

proof fn lemma_delay_raw_fixpoint(d: nat, h: nat, k: nat, j: nat)
    requires
        1 <= k <= j,
        delay_raw(d, h, k) * h / 100 == delay_raw(d, h, k),
    ensures
        delay_raw(d, h, j) == delay_raw(d, h, k),
    decreases j - k,
{
    if j > k {
        lemma_delay_raw_fixpoint(d, h, k, (j - 1) as nat);
    }
}

/// The delay before retry number `attempt` (1-based) under `config`.
pub fn calculate_retry_delay(attempt: u32, config: &RetryConfig) -> (r: u64)
    requires
        attempt >= 1,
    ensures
        r == config.delay_spec(attempt as nat),
{
    let d = config.initial_delay_ms;
    let m = config.max_delay_ms;
    let h = config.multiplier_hundredths;
    let mut cur: u64 = d;
    let mut k: u32 = 1;
    while k < attempt
        invariant
            1 <= k <= attempt,
            d == config.initial_delay_ms,
            m == config.max_delay_ms,
            h == config.multiplier_hundredths,
            cur as nat == delay_raw(d as nat, h as nat, k as nat),
        decreases attempt - k,
    {
        if h >= 100 && cur >= m {
            proof {
                lemma_delay_raw_monotone(d as nat, h as nat, k as nat, attempt as nat);
            }
            return m;
        }
        proof {
            lemma_mul_upper_bound(cur as int, u64::MAX as int, h as int, u32::MAX as int);
        }
        let prod: u128 = (cur as u128) * (h as u128);
        let next128: u128 = prod / 100;
        proof {
            assert(next128 as nat == delay_raw(d as nat, h as nat, (k + 1) as nat));
        }
        if h >= 100 {
            if next128 >= m as u128 {
                proof {
                    lemma_delay_raw_monotone(d as nat, h as nat, (k + 1) as nat, attempt as nat);
                }
                return m;
            }
        } else {
            proof {
                lemma_delay_raw_step_shrinks(d as nat, h as nat, (k + 1) as nat);
                assert(next128 <= cur as u128);
            }
        }
        let next: u64 = next128 as u64;
        proof {
            assert(next as nat == next128 as nat);
        }
        if next == cur {
            proof {
                lemma_delay_raw_fixpoint(d as nat, h as nat, k as nat, attempt as nat);
            }
            k = attempt;
        } else {
            cur = next;
            k = k + 1;
        }
    }
    if cur >= m {
        m
    } else {
        cur
    }
}

/// The schedule follows the closed formula when the factor is a whole
/// number: the delay before retry `k` is the initial delay times the factor
/// raised to `k - 1`, capped at the maximum delay. (With a fractional
/// factor the schedule floors at every step instead.)
pub proof fn lemma_delay_closed_form(cfg: RetryConfig, k: nat)
    requires
        k >= 1,
        cfg.multiplier_hundredths % 100 == 0,
    ensures
        ({
            let factor = cfg.multiplier_hundredths as int / 100;
            let raw = cfg.initial_delay_ms as int * pow(factor, (k - 1) as nat);
            cfg.delay_spec(k) == if raw >= cfg.max_delay_ms as int {
                cfg.max_delay_ms as int
            } else {
                raw
            }
        }),
{
    lemma_delay_raw_closed_form(
        cfg.initial_delay_ms as nat,
        cfg.multiplier_hundredths as nat,
        k,
    );
}

proof fn lemma_delay_raw_closed_form(d: nat, h: nat, k: nat)
    requires
        k >= 1,
        h % 100 == 0,
    ensures
        delay_raw(d, h, k) == d as int * pow(h as int / 100, (k - 1) as nat),
    decreases k,
{
    let p = h as int / 100;
    if k == 1 {
        lemma_pow0(p);
    } else {
        lemma_delay_raw_closed_form(d, h, (k - 1) as nat);
        let x = delay_raw(d, h, (k - 1) as nat) as int;
        assert(h == 100 * p);
        assert(x * (h as int) == (x * p) * 100) by (nonlinear_arith)
            requires
                h == 100 * p,
        ;
        lemma_div_by_multiple(x * p, 100);
        assert(x * p == d as int * (pow(p, (k - 2) as nat) * p)) by (nonlinear_arith)
            requires
                x == d as int * pow(p, (k - 2) as nat),
        ;
        assert(pow(p, (k - 1) as nat) == pow(p, (k - 2) as nat) * p) by {
            vstd::arithmetic::power::lemma_pow1(p);
            vstd::arithmetic::power::lemma_pow_adds(p, (k - 2) as nat, 1);
        }
    }
}

/// Decides whether a failed attempt is reissued: the policy must exist,
/// the retry budget must not be exhausted, the taxonomy must call the error
/// retryable and the policy must allow its category. Returns the backoff
/// delay in milliseconds before the retry, or `None` to stop with the
/// error.
///
/// `attempts_made` counts the retries already performed: 0 when the first
/// attempt just failed.
pub fn should_retry(policy: &Option<RetryConfig>, attempts_made: u32, err: &Error) -> (r: Option<
    u64,
>)
    ensures
        match policy {
            Some(cfg) => {
                if attempts_made < cfg.max_retries && cfg.retries_spec(err) {
                    r matches Some(delay) && delay == cfg.delay_spec((attempts_made + 1) as nat)
                } else {
                    r is None
                }
            },
            None => r is None,
        },
{
    match policy {
        Some(cfg) => {
            if attempts_made >= cfg.max_retries {
                return None;
            }
            if !err.is_retryable() {
                return None;
            }
            if !policy_allows(cfg, err) {
                return None;
            }
            Some(calculate_retry_delay(attempts_made + 1, cfg))
        },
        None => None,
    }
}

/// Whether the policy's own switches allow retrying `e`.
fn policy_allows(cfg: &RetryConfig, e: &Error) -> (r: bool)
    ensures
        r == cfg.allows_spec(e),
{
    match e {
        Error::Timeout { .. } => cfg.retry_on_timeout,
        Error::Network { .. } => cfg.retry_on_network_error,
        Error::Http { status, .. } => contains_status(&cfg.retry_on_status, *status),
        _ => false,
    }
}

fn contains_status(list: &Vec<u16>, status: u16) -> (r: bool)
    ensures
        r == list@.contains(status),
{
    let n = list.len();
    let mut i: usize = 0;
    while i < n
        invariant
            i <= n,
            n == list@.len(),
            forall|j: int| 0 <= j < i ==> list@[j] != status,
        decreases n - i,
    {
        if list[i] == status {
            return true;
        }
        i = i + 1;
    }
    false
}

/// The number of attempts the retry loop performs when attempt `i` (0-based)
/// fails with `fails[i]`, counting from the state where `i` retries were
/// already made.
pub open spec fn attempts_from(cfg: RetryConfig, fails: Seq<Error>, i: int) -> int
    decreases fails.len() - i,
{
    if i < 0 || i >= fails.len() {
        i + 1
    } else if i >= cfg.max_retries || !cfg.retries_spec(&fails[i]) {
        i + 1
    } else {
        attempts_from(cfg, fails, i + 1)
    }
}

/// The number of attempts one logical request performs when every attempt
/// fails, attempt `i` (0-based) failing with `fails[i]`: without a policy a
/// single attempt, with a policy as many as `should_retry` grants.
pub open spec fn total_attempts(policy: Option<RetryConfig>, fails: Seq<Error>) -> int {
    match policy {
        None => 1,
        Some(cfg) => attempts_from(cfg, fails, 0),
    }
}

proof fn lemma_attempts_from_exhausts(cfg: RetryConfig, fails: Seq<Error>, i: int)
    requires
        fails.len() > cfg.max_retries,
        0 <= i <= cfg.max_retries,
        forall|j: int| 0 <= j < fails.len() ==> cfg.retries_spec(&#[trigger] fails[j]),
    ensures
        attempts_from(cfg, fails, i) == cfg.max_retries + 1,
    decreases cfg.max_retries - i,
{
    if i < cfg.max_retries {
        lemma_attempts_from_exhausts(cfg, fails, i + 1);
    }
}

/// When every attempt fails with an error the policy retries, the loop
/// performs exactly `max_retries + 1` attempts.
pub proof fn lemma_retry_exhausts_budget(cfg: RetryConfig, fails: Seq<Error>)
    requires
        fails.len() > cfg.max_retries,
        forall|j: int| 0 <= j < fails.len() ==> cfg.retries_spec(&#[trigger] fails[j]),
    ensures
        total_attempts(Some(cfg), fails) == cfg.max_retries + 1,
{
    lemma_attempts_from_exhausts(cfg, fails, 0);
}

/// When the first attempt fails with an error the policy does not retry,
/// the loop performs exactly one attempt; without a policy it performs one
/// attempt whatever the failure.
pub proof fn lemma_first_failure_is_final(policy: Option<RetryConfig>, fails: Seq<Error>)
    requires
        fails.len() > 0,
        policy matches Some(cfg) ==> !cfg.retries_spec(&fails[0]),
    ensures
        total_attempts(policy, fails) == 1,
{
}

} // verus!
