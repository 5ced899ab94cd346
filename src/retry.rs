//! Retry counts and exponential backoff delays.

use vstd::prelude::*;

verus! {

/// `base` raised to the power `exp`.
pub open spec fn pow(base: nat, exp: nat) -> nat
    decreases exp,
{
    if exp == 0 {
        1
    } else {
        base * pow(base, (exp - 1) as nat)
    }
}

pub open spec fn min_nat(a: nat, b: nat) -> nat {
    if a <= b {
        a
    } else {
        b
    }
}

/// Powers of a base of at least one never shrink as the exponent grows.
pub proof fn lemma_pow_monotone(base: nat, lo: nat, hi: nat)
    requires
        base >= 1,
        lo <= hi,
    ensures
        pow(base, lo) <= pow(base, hi),
    decreases hi - lo,
{
    if lo < hi {
        lemma_pow_monotone(base, lo, (hi - 1) as nat);
        let p = pow(base, (hi - 1) as nat);
        assert(p <= base * p) by (nonlinear_arith)
            requires
                base >= 1,
        ;
    }
}

pub fn default_max_retries() -> (r: u32)
    ensures
        r == 5,
{
    5
}

pub fn default_initial_delay() -> (r: u64)
    ensures
        r == 1,
{
    1
}

pub fn default_max_delay() -> (r: u64)
    ensures
        r == 300,
{
    300
}

pub fn default_backoff_multiplier() -> (r: u64)
    ensures
        r == 2,
{
    2
}

/// How often, and how patiently, a failed transfer attempt is repeated.
///
/// Delays are whole seconds; the multiplier is a whole factor applied once
/// per further attempt.
#[derive(Clone, Copy, Debug, PartialEq, Eq)]
pub struct DownloadRetryConfig {
    /// Retries after the first attempt.
    pub max_retries: u32,
    /// Delay after the first failed attempt, in seconds.
    pub initial_delay_secs: u64,
    /// Upper bound of every delay, in seconds.
    pub max_delay_secs: u64,
    /// Factor by which the delay grows from one attempt to the next.
    pub backoff_multiplier: u64,
}

impl DownloadRetryConfig {
    /// `min(max_delay, initial_delay * multiplier^attempt)`, in seconds.
    pub open spec fn delay_spec(self, attempt: nat) -> nat {
        min_nat(
            self.max_delay_secs as nat,
            self.initial_delay_secs as nat * pow(self.backoff_multiplier as nat, attempt),
        )
    }

    /// A failure of the attempt numbered `attempt` (from zero) is retried.
    pub open spec fn should_retry_spec(self, attempt: nat) -> bool {
        attempt < self.max_retries
    }

    /// Delay in seconds to wait after the failed attempt numbered `attempt`.
    pub fn calculate_delay(&self, attempt: u32) -> (r: u64)
        ensures
            r as nat == self.delay_spec(attempt as nat),
    {
        let max = self.max_delay_secs;
        let m = self.backoff_multiplier;
        if m == 0 {
            if attempt == 0 {
                return if self.initial_delay_secs <= max { self.initial_delay_secs } else { max };
            }
            proof {
                assert(pow(0, attempt as nat) == 0 * pow(0, (attempt - 1) as nat));
                assert(pow(0, attempt as nat) == 0);
                assert(self.initial_delay_secs as nat * pow(0, attempt as nat) == 0)
                    by (nonlinear_arith)
                    requires
                        pow(0, attempt as nat) == 0,
                ;
            }
            return 0;
        }
        let mut d: u64 = self.initial_delay_secs;
        if d >= max {
            proof {
                lemma_pow_monotone(m as nat, 0, attempt as nat);
                assert(d as nat * 1 <= d as nat * pow(m as nat, attempt as nat)) by (nonlinear_arith)
                    requires
                        1 <= pow(m as nat, attempt as nat),
                ;
            }
            return max;
        }
        let mut i: u32 = 0;
        while i < attempt
            invariant
                m == self.backoff_multiplier,
                max == self.max_delay_secs,
                m >= 1,
                i <= attempt,
                d as nat == self.initial_delay_secs as nat * pow(m as nat, i as nat),
                d < max,
            decreases attempt - i,
        {
            if d > max / m {
                proof {
                    let ini = self.initial_delay_secs as nat;
                    let p_next = pow(m as nat, (i + 1) as nat);
                    let pa = pow(m as nat, attempt as nat);
                    lemma_pow_monotone(m as nat, (i + 1) as nat, attempt as nat);
                    assert(p_next == m as nat * pow(m as nat, i as nat));
                    assert(d as nat * m as nat > max as nat) by (nonlinear_arith)
                        requires
                            d > max / m,
                            m >= 1,
                    ;
                    assert(ini * p_next == d as nat * m as nat) by (nonlinear_arith)
                        requires
                            p_next == m as nat * pow(m as nat, i as nat),
                            d as nat == ini * pow(m as nat, i as nat),
                    ;
                    assert(ini * p_next <= ini * pa) by (nonlinear_arith)
                        requires
                            p_next <= pa,
                    ;
                }
                return max;
            }
            proof {
                assert(d as nat * m as nat <= max as nat) by (nonlinear_arith)
                    requires
                        d <= max / m,
                        m >= 1,
                ;
                assert(pow(m as nat, (i + 1) as nat) == m as nat * pow(m as nat, i as nat));
                assert(self.initial_delay_secs as nat * (m as nat * pow(m as nat, i as nat))
                    == (self.initial_delay_secs as nat * pow(m as nat, i as nat)) * m as nat)
                    by (nonlinear_arith);
            }
            d = d * m;
            if d == max {
                proof {
                    lemma_pow_monotone(m as nat, (i + 1) as nat, attempt as nat);
                    let ini = self.initial_delay_secs as nat;
                    assert(ini * pow(m as nat, (i + 1) as nat) <= ini * pow(m as nat, attempt as nat))
                        by (nonlinear_arith)
                        requires
                            pow(m as nat, (i + 1) as nat) <= pow(m as nat, attempt as nat),
                    ;
                }
                return max;
            }
            i = i + 1;
        }
        d
    }

    /// Whether a failure of the attempt numbered `attempt` is followed by another.
    pub fn should_retry(&self, attempt: u32) -> (r: bool)
        ensures
            r == self.should_retry_spec(attempt as nat),
    {
        attempt < self.max_retries
    }
}

impl Default for DownloadRetryConfig {
    fn default() -> (r: Self)
        ensures
            r.max_retries == 5,
            r.initial_delay_secs == 1,
            r.max_delay_secs == 300,
            r.backoff_multiplier == 2,
    {
        DownloadRetryConfig {
            max_retries: default_max_retries(),
            initial_delay_secs: default_initial_delay(),
            max_delay_secs: default_max_delay(),
            backoff_multiplier: default_backoff_multiplier(),
        }
    }
}

} // verus!
