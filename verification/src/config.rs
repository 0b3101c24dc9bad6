//! Retry configuration and the backoff arithmetic.

use rand::rngs::StdRng;
use rand::Rng;
use vstd::arithmetic::power::lemma_pow0;
use vstd::arithmetic::power2::{lemma_pow2_pos, lemma_pow2_strictly_increases, lemma_pow2_unfold, pow2};
use vstd::prelude::*;

use crate::delay::Delay;

verus! {

/// Jitter strategy applied on top of exponential backoff.
///
/// "Full" spreads retries the most and is the default. "Equal" keeps at
/// least half of the backoff. "NoJitter" is deterministic.
#[derive(Debug, Clone, Copy, PartialEq, Eq, Structural)]
pub enum Jitter {
    /// `delay = min(base * 2^attempt, max_delay)`.
    NoJitter,
    /// `delay = capped / 2 + rand(0, capped / 2)`.
    Equal,
    /// `delay = rand(0, capped)`. The default.
    Full,
}

impl Default for Jitter {
    fn default() -> (j: Self)
        ensures
            j == Jitter::Full,
    {
        Jitter::Full
    }
}

/// Tunables for a retry loop.
///
/// Defaults: 6 attempts, 500ms base delay, 30s cap, full jitter.
#[derive(Debug, Clone, Copy)]
pub struct RetryConfig {
    /// Total attempts including the first (so `1` means "no retries").
    pub max_attempts: u32,
    /// Base delay before the first retry sleep. Doubles each attempt.
    pub base_delay: Delay,
    /// Hard cap on a single sleep duration.
    pub max_delay: Delay,
    /// Jitter strategy.
    pub jitter: Jitter,
}

/// `base * 2^attempt`, capped at `cap`.
pub open spec fn capped_backoff(base: nat, cap: nat, attempt: nat) -> nat {
    if base * pow2(attempt) <= cap {
        base * pow2(attempt)
    } else {
        cap
    }
}

impl RetryConfig {
    /// The number of attempts a loop with this configuration runs at most:
    /// `max_attempts`, but never fewer than one.
    pub open spec fn attempt_budget(self) -> nat {
        if self.max_attempts == 0 {
            1
        } else {
            self.max_attempts as nat
        }
    }

    /// The backoff before retry `attempt` ahead of jitter, in nanoseconds.
    pub open spec fn capped_nanos(self, attempt: nat) -> nat {
        capped_backoff(self.base_delay.nanos as nat, self.max_delay.nanos as nat, attempt)
    }

    /// The width of the random part of the delay before retry `attempt`.
    pub open spec fn span_nanos(self, attempt: nat) -> nat {
        let capped = self.capped_nanos(attempt);
        match self.jitter {
            Jitter::NoJitter => 0,
            Jitter::Equal => (capped - capped / 2) as nat,
            Jitter::Full => capped,
        }
    }

    /// The delay before retry `attempt` when the random part came out as `draw`.
    pub open spec fn jittered_nanos(self, attempt: nat, draw: nat) -> nat {
        let capped = self.capped_nanos(attempt);
        match self.jitter {
            Jitter::NoJitter => capped,
            Jitter::Equal => capped / 2 + draw,
            Jitter::Full => draw,
        }
    }

    /// The delays that the strategy allows before retry `attempt`.
    pub open spec fn allows_delay(self, attempt: nat, nanos: nat) -> bool {
        let capped = self.capped_nanos(attempt);
        match self.jitter {
            Jitter::NoJitter => nanos == capped,
            Jitter::Equal => capped / 2 <= nanos <= capped,
            Jitter::Full => nanos <= capped,
        }
    }
}

/// `base * 2^0 == base`.
proof fn lemma_scaled_pow2_zero(base: nat)
    ensures
        base * pow2(0) == base,
{
    lemma_pow0(2);
    assert(base * pow2(0) == base) by (nonlinear_arith)
        requires
            pow2(0) == 1,
    ;
}

/// `base * 2^(i + 1) == 2 * (base * 2^i)`: one more step doubles.
proof fn lemma_scaled_pow2_double(base: nat, i: nat)
    ensures
        base * pow2(i + 1) == 2 * (base * pow2(i)),
{
    lemma_pow2_unfold(i + 1);
    assert(base * pow2(i + 1) == 2 * (base * pow2(i))) by (nonlinear_arith)
        requires
            pow2(i + 1) == 2 * pow2(i),
    ;
}

/// `base * 2^i <= base * 2^j` whenever `i <= j`.
proof fn lemma_scaled_pow2_monotone(base: nat, i: nat, j: nat)
    requires
        i <= j,
    ensures
        base * pow2(i) <= base * pow2(j),
{
    if i < j {
        lemma_pow2_strictly_increases(i, j);
        let a = pow2(i);
        let b = pow2(j);
        assert(base * a <= base * b) by (nonlinear_arith)
            requires
                a < b,
        ;
    }
}

/// A loop runs `max_attempts` attempts at most, counting the first, so `1`
/// means no retries; only `0` is raised to one attempt.
pub proof fn law_attempt_budget_is_max_attempts(cfg: RetryConfig)
    ensures
        cfg.max_attempts >= 1 ==> cfg.attempt_budget() == cfg.max_attempts,
        cfg.max_attempts == 0 ==> cfg.attempt_budget() == 1,
{
}

/// The first backoff is the base delay, capped.
pub proof fn law_first_backoff_is_base(cfg: RetryConfig)
    ensures
        cfg.capped_nanos(0) == if cfg.base_delay.nanos <= cfg.max_delay.nanos {
            cfg.base_delay.nanos as nat
        } else {
            cfg.max_delay.nanos as nat
        },
{
    lemma_scaled_pow2_zero(cfg.base_delay.nanos as nat);
}

/// Each backoff doubles the one before, until it reaches the cap.
pub proof fn law_backoff_doubles_until_cap(cfg: RetryConfig, attempt: nat)
    ensures
        cfg.capped_nanos(attempt + 1) == if 2 * cfg.capped_nanos(attempt) <= cfg.max_delay.nanos {
            2 * cfg.capped_nanos(attempt)
        } else {
            cfg.max_delay.nanos as nat
        },
{
    lemma_scaled_pow2_double(cfg.base_delay.nanos as nat, attempt);
}

/// The backoff never shrinks from one retry to a later one.
pub proof fn law_backoff_never_shrinks(cfg: RetryConfig, earlier: nat, later: nat)
    requires
        earlier <= later,
    ensures
        cfg.capped_nanos(earlier) <= cfg.capped_nanos(later),
{
    lemma_scaled_pow2_monotone(cfg.base_delay.nanos as nat, earlier, later);
}

/// No delay that a strategy allows is longer than `max_delay`, and
/// `Jitter::Equal` never allows less than half the capped backoff.
pub proof fn law_delay_within_cap(cfg: RetryConfig, attempt: nat, nanos: nat)
    requires
        cfg.allows_delay(attempt, nanos),
    ensures
        nanos <= cfg.capped_nanos(attempt) <= cfg.max_delay.nanos,
        cfg.jitter == Jitter::Equal ==> cfg.capped_nanos(attempt) / 2 <= nanos,
{
}

/// The delays reachable with a draw from `0..=span_nanos` are exactly the
/// delays that the strategy allows.
pub proof fn law_draws_cover_allowed_delays(cfg: RetryConfig, attempt: nat, nanos: nat)
    ensures
        cfg.allows_delay(attempt, nanos) <==> exists|draw: nat|
            draw <= cfg.span_nanos(attempt) && #[trigger] cfg.jittered_nanos(attempt, draw)
                == nanos,
{
    let capped = cfg.capped_nanos(attempt);
    if cfg.allows_delay(attempt, nanos) {
        let draw: nat = match cfg.jitter {
            Jitter::NoJitter => 0,
            Jitter::Equal => (nanos - capped / 2) as nat,
            Jitter::Full => nanos,
        };
        assert(cfg.jittered_nanos(attempt, draw) == nanos);
    }
}

/// `rand`'s standard generator, carried through `delay_for` to the draw.
#[verifier::external_type_specification]
#[verifier::external_body]
pub struct ExStdRng(rand::rngs::StdRng);

/// Draws a number from `0..=hi` with `rand::Rng::gen_range` on a `StdRng`.
///
/// Trusted: `gen_range` samples from the inclusive range it is given, so the
/// result is at most `hi`. Which number comes out is left open.
#[verifier::external_body]
fn draw_up_to(rng: &mut StdRng, hi: u128) -> (r: u128)
    ensures
        r <= hi,
{
    rng.gen_range(0..=hi)
}

impl Default for RetryConfig {
    fn default() -> (cfg: Self)
        ensures
            cfg.max_attempts == 6,
            cfg.base_delay.nanos == 500_000_000,
            cfg.max_delay.nanos == 30_000_000_000,
            cfg.jitter == Jitter::Full,
    {
        RetryConfig {
            max_attempts: 6,
            base_delay: Delay::from_millis(500),
            max_delay: Delay::from_secs(30),
            jitter: Jitter::Full,
        }
    }
}

impl RetryConfig {
    /// Set `max_attempts` (chainable).
    pub fn with_max_attempts(self, n: u32) -> (cfg: Self)
        ensures
            cfg == (RetryConfig { max_attempts: n, ..self }),
    {
        RetryConfig { max_attempts: n, ..self }
    }

    /// Set `base_delay` (chainable).
    pub fn with_base_delay(self, d: Delay) -> (cfg: Self)
        ensures
            cfg == (RetryConfig { base_delay: d, ..self }),
    {
        RetryConfig { base_delay: d, ..self }
    }

    /// Set `max_delay` (chainable).
    pub fn with_max_delay(self, d: Delay) -> (cfg: Self)
        ensures
            cfg == (RetryConfig { max_delay: d, ..self }),
    {
        RetryConfig { max_delay: d, ..self }
    }

    /// Set `jitter` (chainable).
    pub fn with_jitter(self, j: Jitter) -> (cfg: Self)
        ensures
            cfg == (RetryConfig { jitter: j, ..self }),
    {
        RetryConfig { jitter: j, ..self }
    }

    /// The backoff before retry `attempt_index` ahead of jitter:
    /// `base_delay * 2^attempt_index`, capped at `max_delay`.
    pub fn capped_delay(&self, attempt_index: u32) -> (d: Delay)
        ensures
            d.nanos == self.capped_nanos(attempt_index as nat),
    {
        let base = self.base_delay.nanos;
        let cap = self.max_delay.nanos;
        let mut d: u128 = base;
        let mut i: u32 = 0;
        proof {
            lemma_scaled_pow2_zero(base as nat);
        }
        while i < attempt_index && d != 0 && d < cap && d <= cap / 2
            invariant
                i <= attempt_index,
                d == base * pow2(i as nat),
            decreases attempt_index - i,
        {
            proof {
                lemma_scaled_pow2_double(base as nat, i as nat);
            }
            d = d * 2;
            i = i + 1;
        }
        let ghost exact = base * pow2(attempt_index as nat);
        proof {
            lemma_scaled_pow2_monotone(base as nat, i as nat, attempt_index as nat);
            lemma_pow2_pos(attempt_index as nat);
            lemma_pow2_pos(i as nat);
        }
        if i < attempt_index && d != 0 && d < cap {
            // Doubling once more already passes the cap.
            proof {
                lemma_scaled_pow2_double(base as nat, i as nat);
                lemma_scaled_pow2_monotone(base as nat, (i + 1) as nat, attempt_index as nat);
            }
            Delay { nanos: cap }
        } else if d < cap {
            proof {
                if d == 0 {
                    assert(base == 0) by (nonlinear_arith)
                        requires
                            base * pow2(i as nat) == 0,
                            pow2(i as nat) > 0,
                    ;
                    assert(exact == 0);
                }
            }
            Delay { nanos: d }
        } else {
            Delay { nanos: cap }
        }
    }

    /// The width of the random part of the delay before retry
    /// `attempt_index`: none for `Jitter::NoJitter`, the upper half of the capped
    /// backoff for `Jitter::Equal`, all of it for `Jitter::Full`.
    pub fn jitter_span(&self, attempt_index: u32) -> (span: u128)
        ensures
            span == self.span_nanos(attempt_index as nat),
    {
        let capped = self.capped_delay(attempt_index).nanos;
        match self.jitter {
            Jitter::NoJitter => 0,
            Jitter::Equal => capped - capped / 2,
            Jitter::Full => capped,
        }
    }

    /// The delay before retry `attempt_index` once the random part has been
    /// drawn from `0..=jitter_span(attempt_index)`.
    pub fn jittered_delay(&self, attempt_index: u32, draw: u128) -> (d: Delay)
        requires
            draw <= self.span_nanos(attempt_index as nat),
        ensures
            d.nanos == self.jittered_nanos(attempt_index as nat, draw as nat),
            self.allows_delay(attempt_index as nat, d.nanos as nat),
    {
        let capped = self.capped_delay(attempt_index).nanos;
        match self.jitter {
            Jitter::NoJitter => Delay { nanos: capped },
            Jitter::Equal => Delay { nanos: capped / 2 + draw },
            Jitter::Full => Delay { nanos: draw },
        }
    }

    /// Compute the sleep delay before retry `attempt_index` (0-based: 0 is
    /// the first sleep, 1 is the second, etc.), drawing the jitter from `rng`.
    pub fn delay_for(&self, attempt_index: u32, rng: &mut StdRng) -> (d: Delay)
        ensures
            self.allows_delay(attempt_index as nat, d.nanos as nat),
            self.jitter == Jitter::NoJitter ==> d.nanos == self.capped_nanos(attempt_index as nat),
            self.jitter == Jitter::NoJitter ==> *final(rng) == *old(rng),
    {
        match self.jitter {
            Jitter::NoJitter => self.jittered_delay(attempt_index, 0),
            _ => {
                let span = self.jitter_span(attempt_index);
                let draw = draw_up_to(rng, span);
                self.jittered_delay(attempt_index, draw)
            },
        }
    }
}

} // verus!
