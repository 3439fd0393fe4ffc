use vstd::prelude::*;
use vstd::arithmetic::div_mod::lemma_fundamental_div_mod;

verus! {

/// Seconds in one minute; every backoff wait is a whole number of minutes.
pub const SECONDS_PER_MINUTE: u64 = 60;

/// `base` raised to the power `n`.
pub open spec fn pow(base: nat, n: nat) -> nat
    decreases n,
{
    if n == 0 {
        1
    } else {
        base * pow(base, (n - 1) as nat)
    }
}

/// The wait, in seconds, after the `n`-th consecutive hard failure: `60 * base^n`.
pub open spec fn backoff_seconds(base: nat, n: nat) -> nat {
    60 * pow(base, n)
}

/// The wait as a `u64`: the formula's value where it fits, `u64::MAX` otherwise.
pub open spec fn capped_backoff_seconds(base: nat, n: nat) -> u64 {
    if backoff_seconds(base, n) <= u64::MAX {
        backoff_seconds(base, n) as u64
    } else {
        u64::MAX
    }
}

/// Raising a base of at least one to a larger power never gives less.
pub proof fn lemma_pow_monotone(base: nat, m: nat, n: nat)
    requires
        base >= 1,
        m <= n,
    ensures
        pow(base, m) <= pow(base, n),
    decreases n,
{
    if m < n {
        lemma_pow_monotone(base, m, (n - 1) as nat);
        assert(pow(base, (n - 1) as nat) <= base * pow(base, (n - 1) as nat)) by (nonlinear_arith)
            requires
                base >= 1,
        ;
    }
}

/// Each hard failure multiplies the next wait by the base: the wait for
/// attempt `n + 1` is `base` times the wait for attempt `n`.
pub proof fn lemma_wait_grows_by_base(base: nat, n: nat)
    ensures
        backoff_seconds(base, n + 1) == base * backoff_seconds(base, n),
{
    assert(pow(base, n + 1) == base * pow(base, n));
    assert(60 * (base * pow(base, n)) == base * (60 * pow(base, n))) by (nonlinear_arith);
}

/// The first wait, at attempt one, is sixty times the base.
pub proof fn lemma_first_wait(base: nat)
    ensures
        backoff_seconds(base, 1) == 60 * base,
{
    assert(pow(base, 0) == 1);
    assert(pow(base, 1) == base * pow(base, 0));
}

proof fn lemma_over_quotient(a: int, b: int, m: int)
    requires
        b >= 1,
        m >= 0,
        a > m / b,
    ensures
        a * b > m,
{
    lemma_fundamental_div_mod(m, b);
    let q = m / b;
    let r = m % b;
    assert(a * b > m) by (nonlinear_arith)
        requires
            b >= 1,
            a >= q + 1,
            m == b * q + r,
            r < b,
    ;
}

proof fn lemma_within_quotient(a: int, b: int, m: int)
    requires
        b >= 1,
        m >= 0,
        0 <= a <= m / b,
    ensures
        a * b <= m,
{
    lemma_fundamental_div_mod(m, b);
    let q = m / b;
    let r = m % b;
    assert(a * b <= m) by (nonlinear_arith)
        requires
            b >= 1,
            0 <= a <= q,
            m == b * q + r,
            r >= 0,
    ;
}

/// Computes `60 * base^n` seconds, saturating at `u64::MAX` instead of overflowing.
pub fn backoff_wait_seconds(base: u32, n: u32) -> (r: u64)
    ensures
        r == capped_backoff_seconds(base as nat, n as nat),
{
    let mut acc: u64 = 1;
    let mut i: u32 = 0;
    while i < n
        invariant
            i <= n,
            acc as nat == pow(base as nat, i as nat),
        decreases n - i,
    {
        if base != 0 && acc > u64::MAX / (base as u64) {
            proof {
                let b = base as nat;
                lemma_over_quotient(acc as int, b as int, u64::MAX as int);
                assert(pow(b, (i + 1) as nat) == b * pow(b, i as nat));
                lemma_pow_monotone(b, (i + 1) as nat, n as nat);
            }
            return u64::MAX;
        }
        proof {
            let b = base as nat;
            if b != 0 {
                lemma_within_quotient(acc as int, b as int, u64::MAX as int);
            }
            assert((acc as int) * (b as int) <= u64::MAX);
            assert(pow(b, (i + 1) as nat) == b * pow(b, i as nat));
            assert((acc as int) * (b as int) == (b as int) * (acc as int)) by (nonlinear_arith);
        }
        acc = acc * (base as u64);
        i = i + 1;
    }
    if acc > u64::MAX / SECONDS_PER_MINUTE {
        u64::MAX
    } else {
        SECONDS_PER_MINUTE * acc
    }
}

/// The attempt counter of the hard-failure backoff, with its growth factor.
pub struct Backoff {
    /// How many hard failures this wait is for; starts at one.
    pub attempt: u32,
    /// The growth factor of the wait.
    pub base: u32,
}

impl Backoff {
    /// The counter starts at one and never falls below.
    pub open spec fn wf(&self) -> bool {
        self.attempt >= 1
    }

    /// The wait that the next hard failure calls for, in seconds.
    pub open spec fn spec_wait(&self) -> u64 {
        capped_backoff_seconds(self.base as nat, self.attempt as nat)
    }

    /// The attempt after one more hard failure; it stays at `u32::MAX` once there.
    pub open spec fn next_attempt(attempt: u32) -> u32 {
        if attempt == u32::MAX {
            attempt
        } else {
            (attempt + 1) as u32
        }
    }

    /// A fresh counter at attempt one.
    pub fn new(base: u32) -> (r: Backoff)
        ensures
            r.wf(),
            r.attempt == 1,
            r.base == base,
    {
        Backoff { attempt: 1, base }
    }

    /// The wait, in seconds, that the current attempt calls for.
    pub fn wait_seconds(&self) -> (r: u64)
        ensures
            r == self.spec_wait(),
    {
        backoff_wait_seconds(self.base, self.attempt)
    }

    /// Counts one more hard failure.
    pub fn record_failure(&mut self)
        requires
            old(self).wf(),
        ensures
            final(self).wf(),
            final(self).base == old(self).base,
            final(self).attempt == Self::next_attempt(old(self).attempt),
    {
        if self.attempt < u32::MAX {
            self.attempt = self.attempt + 1;
        }
    }

    /// Back to attempt one, after a fully successful cycle.
    pub fn reset(&mut self)
        ensures
            final(self).wf(),
            final(self).base == old(self).base,
            final(self).attempt == 1,
    {
        self.attempt = 1;
    }
}

} // verus!
