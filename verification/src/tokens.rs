//! Token categories and the saturating arithmetic that combines them.

use vstd::prelude::*;

verus! {

/// `x` clamped into the range of `i64`, which is what the saturating
/// operations of `i64` return.
pub open spec fn clamp_i64(x: int) -> i64 {
    if x > i64::MAX {
        i64::MAX
    } else if x < i64::MIN {
        i64::MIN
    } else {
        x as i64
    }
}

/// `x`, or zero when `x` is negative.
pub open spec fn nonneg(x: i64) -> i64 {
    if x < 0 { 0 } else { x }
}

/// The smaller of two integers.
pub open spec fn min_i64(a: i64, b: i64) -> i64 {
    if a <= b { a } else { b }
}

/// `a.saturating_add(b)` for `i64`.
pub fn sat_add(a: i64, b: i64) -> (r: i64)
    ensures
        r == clamp_i64(a + b),
{
    if b > 0 && a > i64::MAX - b {
        i64::MAX
    } else if b < 0 && a < i64::MIN - b {
        i64::MIN
    } else {
        a + b
    }
}

/// `a.saturating_sub(b)` for `i64`.
pub fn sat_sub(a: i64, b: i64) -> (r: i64)
    ensures
        r == clamp_i64(a - b),
{
    if b < 0 && a > i64::MAX + b {
        i64::MAX
    } else if b > 0 && a < i64::MIN + b {
        i64::MIN
    } else {
        a - b
    }
}

/// `a.saturating_mul(b)` for `i64`.
pub fn sat_mul(a: i64, b: i64) -> (r: i64)
    ensures
        r == clamp_i64(a * b),
{
    assert(-0x4000_0000_0000_0000_0000_0000_0000_0000 <= (a as int) * (b as int)
        <= 0x4000_0000_0000_0000_0000_0000_0000_0000) by (nonlinear_arith)
        requires
            i64::MIN <= a <= i64::MAX,
            i64::MIN <= b <= i64::MAX,
    ;
    let wide: i128 = (a as i128) * (b as i128);
    if wide > i64::MAX as i128 {
        i64::MAX
    } else if wide < i64::MIN as i128 {
        i64::MIN
    } else {
        wide as i64
    }
}

/// Token counts split into four disjoint categories and their total.
#[derive(Clone, Copy, Debug, PartialEq, Eq, Structural)]
pub struct TokenTotals {
    pub input_tokens: i64,
    pub cached_input_tokens: i64,
    pub output_tokens: i64,
    pub reasoning_output_tokens: i64,
    pub total_tokens: i64,
}

/// The total that `recalculate` stores: the four categories added one after
/// another with saturating addition.
pub open spec fn saturating_sum(t: TokenTotals) -> i64 {
    clamp_i64(
        clamp_i64(clamp_i64(t.input_tokens + t.cached_input_tokens) + t.output_tokens)
            + t.reasoning_output_tokens,
    )
}

/// All four categories are non-negative and the total is their sum, capped
/// at `i64::MAX`.
pub open spec fn is_well_formed(t: TokenTotals) -> bool {
    &&& t.input_tokens >= 0
    &&& t.cached_input_tokens >= 0
    &&& t.output_tokens >= 0
    &&& t.reasoning_output_tokens >= 0
    &&& t.total_tokens == clamp_i64(
        t.input_tokens + t.cached_input_tokens + t.output_tokens + t.reasoning_output_tokens,
    )
}

/// The totals that `from_categories` builds from four category counts.
pub open spec fn categories_spec(input: i64, cached: i64, output: i64, reasoning: i64) -> TokenTotals {
    let t = TokenTotals {
        input_tokens: nonneg(input),
        cached_input_tokens: nonneg(cached),
        output_tokens: nonneg(output),
        reasoning_output_tokens: nonneg(reasoning),
        total_tokens: 0,
    };
    TokenTotals { total_tokens: saturating_sum(t), ..t }
}

/// The totals that `from_inclusive_counts` builds: cached input is taken out
/// of the inclusive input count and reasoning output out of the inclusive
/// output count, each bounded by the count that includes it.
pub open spec fn inclusive_spec(input: i64, cached: i64, output: i64, reasoning: i64) -> TokenTotals {
    let cached = nonneg(min_i64(cached, input));
    let reasoning = nonneg(min_i64(reasoning, output));
    categories_spec(
        clamp_i64(input - cached),
        cached,
        clamp_i64(output - reasoning),
        reasoning,
    )
}

/// The field-by-field saturating difference that `usage_delta` returns.
pub open spec fn delta_spec(current: TokenTotals, previous: TokenTotals) -> TokenTotals {
    TokenTotals {
        input_tokens: clamp_i64(current.input_tokens - previous.input_tokens),
        cached_input_tokens: clamp_i64(current.cached_input_tokens - previous.cached_input_tokens),
        output_tokens: clamp_i64(current.output_tokens - previous.output_tokens),
        reasoning_output_tokens: clamp_i64(
            current.reasoning_output_tokens - previous.reasoning_output_tokens,
        ),
        total_tokens: clamp_i64(current.total_tokens - previous.total_tokens),
    }
}

/// The all-zero totals.
pub open spec fn zero_totals() -> TokenTotals {
    TokenTotals {
        input_tokens: 0,
        cached_input_tokens: 0,
        output_tokens: 0,
        reasoning_output_tokens: 0,
        total_tokens: 0,
    }
}

/// With non-negative summands, the step-by-step saturating sum is the
/// mathematical sum capped at `i64::MAX`.
pub proof fn lemma_saturating_sum_nonneg(t: TokenTotals)
    requires
        t.input_tokens >= 0,
        t.cached_input_tokens >= 0,
        t.output_tokens >= 0,
        t.reasoning_output_tokens >= 0,
    ensures
        saturating_sum(t) == clamp_i64(
            t.input_tokens + t.cached_input_tokens + t.output_tokens + t.reasoning_output_tokens,
        ),
{
}

impl Default for TokenTotals {
    fn default() -> (t: Self)
        ensures
            t == zero_totals(),
    {
        TokenTotals {
            input_tokens: 0,
            cached_input_tokens: 0,
            output_tokens: 0,
            reasoning_output_tokens: 0,
            total_tokens: 0,
        }
    }
}

impl TokenTotals {
    /// Builds totals from counts where input includes cached input and output
    /// includes reasoning output.
    pub fn from_inclusive_counts(
        input_tokens: i64,
        cached_input_tokens: i64,
        output_tokens: i64,
        reasoning_output_tokens: i64,
    ) -> (t: Self)
        ensures
            t == inclusive_spec(input_tokens, cached_input_tokens, output_tokens, reasoning_output_tokens),
            is_well_formed(t),
    {
        let cached = if cached_input_tokens < input_tokens { cached_input_tokens } else { input_tokens };
        let cached = if cached < 0 { 0 } else { cached };
        let reasoning = if reasoning_output_tokens < output_tokens {
            reasoning_output_tokens
        } else {
            output_tokens
        };
        let reasoning = if reasoning < 0 { 0 } else { reasoning };
        let input = sat_sub(input_tokens, cached);
        let output = sat_sub(output_tokens, reasoning);
        Self::from_categories(input, cached, output, reasoning)
    }

    /// Builds totals from four disjoint category counts; negative counts
    /// become zero.
    pub fn from_categories(
        input_tokens: i64,
        cached_input_tokens: i64,
        output_tokens: i64,
        reasoning_output_tokens: i64,
    ) -> (t: Self)
        ensures
            t == categories_spec(input_tokens, cached_input_tokens, output_tokens, reasoning_output_tokens),
            is_well_formed(t),
    {
        let mut totals = TokenTotals {
            input_tokens: if input_tokens < 0 { 0 } else { input_tokens },
            cached_input_tokens: if cached_input_tokens < 0 { 0 } else { cached_input_tokens },
            output_tokens: if output_tokens < 0 { 0 } else { output_tokens },
            reasoning_output_tokens: if reasoning_output_tokens < 0 { 0 } else { reasoning_output_tokens },
            total_tokens: 0,
        };
        totals.recalculate();
        proof {
            lemma_saturating_sum_nonneg(totals);
        }
        totals
    }

    /// Sets the total to the saturating sum of the four categories.
    pub fn recalculate(&mut self)
        ensures
            final(self).input_tokens == old(self).input_tokens,
            final(self).cached_input_tokens == old(self).cached_input_tokens,
            final(self).output_tokens == old(self).output_tokens,
            final(self).reasoning_output_tokens == old(self).reasoning_output_tokens,
            final(self).total_tokens == saturating_sum(*old(self)),
    {
        let a = sat_add(self.input_tokens, self.cached_input_tokens);
        let b = sat_add(a, self.output_tokens);
        self.total_tokens = sat_add(b, self.reasoning_output_tokens);
    }
}

/// The usage between two cumulative readings: each field of `current` minus
/// the same field of `previous`, saturating.
pub fn usage_delta(current: &TokenTotals, previous: &TokenTotals) -> (d: TokenTotals)
    ensures
        d == delta_spec(*current, *previous),
{
    TokenTotals {
        input_tokens: sat_sub(current.input_tokens, previous.input_tokens),
        cached_input_tokens: sat_sub(current.cached_input_tokens, previous.cached_input_tokens),
        output_tokens: sat_sub(current.output_tokens, previous.output_tokens),
        reasoning_output_tokens: sat_sub(
            current.reasoning_output_tokens,
            previous.reasoning_output_tokens,
        ),
        total_tokens: sat_sub(current.total_tokens, previous.total_tokens),
    }
}

/// Splitting inclusive counts loses nothing and counts nothing twice: for
/// non-negative inclusive input and output counts, the input and cached
/// categories add up to the inclusive input, the output and reasoning
/// categories add up to the inclusive output, and the total is the sum of the
/// two inclusive counts (capped at `i64::MAX`).
pub proof fn lemma_inclusive_counts_partition(input: i64, cached: i64, output: i64, reasoning: i64)
    requires
        input >= 0,
        output >= 0,
    ensures
        ({
            let t = inclusive_spec(input, cached, output, reasoning);
            &&& t.input_tokens + t.cached_input_tokens == input
            &&& t.output_tokens + t.reasoning_output_tokens == output
            &&& 0 <= t.cached_input_tokens <= input
            &&& 0 <= t.reasoning_output_tokens <= output
            &&& t.total_tokens == clamp_i64(input + output)
        }),
{
    let t = inclusive_spec(input, cached, output, reasoning);
    lemma_saturating_sum_nonneg(t);
}

/// Every field of `a` is at most the same field of `b`.
pub open spec fn fieldwise_le(a: TokenTotals, b: TokenTotals) -> bool {
    &&& a.input_tokens <= b.input_tokens
    &&& a.cached_input_tokens <= b.cached_input_tokens
    &&& a.output_tokens <= b.output_tokens
    &&& a.reasoning_output_tokens <= b.reasoning_output_tokens
    &&& a.total_tokens <= b.total_tokens
}

/// Every field is non-negative.
pub open spec fn fieldwise_nonneg(a: TokenTotals) -> bool {
    &&& a.input_tokens >= 0
    &&& a.cached_input_tokens >= 0
    &&& a.output_tokens >= 0
    &&& a.reasoning_output_tokens >= 0
    &&& a.total_tokens >= 0
}

/// Between two non-negative cumulative readings that only grew, the delta
/// added to the earlier reading gives back the later one, field by field.
pub proof fn lemma_delta_restores_current(current: TokenTotals, previous: TokenTotals)
    requires
        fieldwise_nonneg(previous),
        fieldwise_le(previous, current),
    ensures
        ({
            let d = delta_spec(current, previous);
            &&& fieldwise_nonneg(d)
            &&& previous.input_tokens + d.input_tokens == current.input_tokens
            &&& previous.cached_input_tokens + d.cached_input_tokens == current.cached_input_tokens
            &&& previous.output_tokens + d.output_tokens == current.output_tokens
            &&& previous.reasoning_output_tokens + d.reasoning_output_tokens
                == current.reasoning_output_tokens
            &&& previous.total_tokens + d.total_tokens == current.total_tokens
        }),
{
}

/// The sum of the total-token deltas between adjacent readings.
pub open spec fn sum_of_total_deltas(readings: Seq<TokenTotals>) -> int
    decreases readings.len(),
{
    if readings.len() <= 1 {
        0
    } else {
        sum_of_total_deltas(readings.drop_last()) + delta_spec(
            readings.last(),
            readings[readings.len() - 2],
        ).total_tokens
    }
}

/// Cumulative readings that never decrease telescope: the deltas between
/// adjacent readings add up to the last reading minus the first.
pub proof fn lemma_total_deltas_telescope(readings: Seq<TokenTotals>)
    requires
        readings.len() >= 1,
        forall|k: int| 0 <= k < readings.len() ==> #[trigger] readings[k].total_tokens >= 0,
        forall|k: int|
            0 <= k < readings.len() - 1 ==> #[trigger] readings[k].total_tokens
                <= readings[k + 1].total_tokens,
    ensures
        sum_of_total_deltas(readings) == readings.last().total_tokens - readings[0].total_tokens,
    decreases readings.len(),
{
    if readings.len() > 1 {
        let shorter = readings.drop_last();
        assert(shorter[shorter.len() - 1].total_tokens <= readings.last().total_tokens);
        lemma_total_deltas_telescope(shorter);
    }
}

} // verus!
