//! Per-token pricing and the saturating cost of a call.
use vstd::prelude::*;

verus! {

/// Prices per token, in micro-cents (one hundred-millionth of a dollar).
#[derive(Clone, Copy, Debug)]
pub struct Pricing {
    pub input_uc_per_tok: u64,
    pub output_uc_per_tok: u64,
}

/// The product of two `u64`s, capped at `u64::MAX`.
pub open spec fn capped_product(x: u64, y: u64) -> int {
    if x * y > u64::MAX {
        u64::MAX as int
    } else {
        x * y
    }
}

impl Pricing {
    /// The cost, in micro-cents, of `in_tok` input tokens and `out_tok`
    /// output tokens: the exact price, capped at `u64::MAX`.
    pub open spec fn cost(self, in_tok: u64, out_tok: u64) -> int {
        let exact = in_tok * self.input_uc_per_tok + out_tok * self.output_uc_per_tok;
        if exact > u64::MAX {
            u64::MAX as int
        } else {
            exact
        }
    }

    /// Cost of a call with `in_tok` input and `out_tok` output tokens, in
    /// micro-cents; it saturates at `u64::MAX` rather than wrapping.
    pub fn cost_uc(&self, in_tok: u64, out_tok: u64) -> (c: u64)
        ensures
            c == self.cost(in_tok, out_tok),
            in_tok * self.input_uc_per_tok + out_tok * self.output_uc_per_tok <= u64::MAX ==> c
                == in_tok * self.input_uc_per_tok + out_tok * self.output_uc_per_tok,
            in_tok * self.input_uc_per_tok + out_tok * self.output_uc_per_tok > u64::MAX ==> c
                == u64::MAX,
    {
        let input_part = saturating_product(in_tok, self.input_uc_per_tok);
        let output_part = saturating_product(out_tok, self.output_uc_per_tok);
        proof {
            lemma_product_nonneg(in_tok, self.input_uc_per_tok);
            lemma_product_nonneg(out_tok, self.output_uc_per_tok);
        }
        input_part.saturating_add(output_part)
    }
}

proof fn lemma_product_nonneg(x: u64, y: u64)
    ensures
        x * y >= 0,
{
    assert(x * y >= 0) by (nonlinear_arith);
}

/// `x * y`, or `u64::MAX` where the product does not fit.
fn saturating_product(x: u64, y: u64) -> (r: u64)
    ensures
        r == capped_product(x, y),
{
    match x.checked_mul(y) {
        Some(p) => p,
        None => u64::MAX,
    }
}

/// More tokens never cost less: the cost grows with both token counts.
pub proof fn lemma_cost_monotone(p: Pricing, in_a: u64, out_a: u64, in_b: u64, out_b: u64)
    requires
        in_a <= in_b,
        out_a <= out_b,
    ensures
        p.cost(in_a, out_a) <= p.cost(in_b, out_b),
{
    assert(in_a * p.input_uc_per_tok <= in_b * p.input_uc_per_tok) by (nonlinear_arith)
        requires
            in_a <= in_b,
    ;
    assert(out_a * p.output_uc_per_tok <= out_b * p.output_uc_per_tok) by (nonlinear_arith)
        requires
            out_a <= out_b,
    ;
}

/// A reservation priced for `max_output_tok` output tokens covers the actual
/// cost of any reply of at most that many tokens.
pub proof fn lemma_reservation_covers(p: Pricing, in_tok: u64, max_output_tok: u64, out_tok: u64)
    requires
        out_tok <= max_output_tok,
    ensures
        p.cost(in_tok, out_tok) <= p.cost(in_tok, max_output_tok),
{
    lemma_cost_monotone(p, in_tok, out_tok, in_tok, max_output_tok);
}

/// An output that runs past `max_output_tok` tokens costs more than was
/// reserved for it, as long as output tokens have a price and the cost has
/// not saturated: such an under-count shows in the amount committed.
pub proof fn lemma_overrun_exceeds_reservation(
    p: Pricing,
    in_tok: u64,
    max_output_tok: u64,
    out_tok: u64,
)
    requires
        max_output_tok < out_tok,
        p.output_uc_per_tok > 0,
        p.cost(in_tok, out_tok) < u64::MAX,
    ensures
        p.cost(in_tok, max_output_tok) < p.cost(in_tok, out_tok),
{
    assert(max_output_tok * p.output_uc_per_tok < out_tok * p.output_uc_per_tok) by (nonlinear_arith)
        requires
            max_output_tok < out_tok,
            p.output_uc_per_tok > 0,
    ;
    assert(in_tok * p.input_uc_per_tok >= 0) by (nonlinear_arith);
}

/// The cost of a call is the input tokens at the input price plus the output
/// tokens at the output price, in exact arithmetic, capped at `u64::MAX`.
pub proof fn lemma_cost_is_capped_price(p: Pricing, in_tok: u64, out_tok: u64)
    ensures
        in_tok * p.input_uc_per_tok + out_tok * p.output_uc_per_tok <= u64::MAX ==> p.cost(
            in_tok,
            out_tok,
        ) == in_tok * p.input_uc_per_tok + out_tok * p.output_uc_per_tok,
        in_tok * p.input_uc_per_tok + out_tok * p.output_uc_per_tok > u64::MAX ==> p.cost(
            in_tok,
            out_tok,
        ) == u64::MAX,
        0 <= p.cost(in_tok, out_tok) <= u64::MAX,
{
    lemma_product_nonneg(in_tok, p.input_uc_per_tok);
    lemma_product_nonneg(out_tok, p.output_uc_per_tok);
}

/// A call with no tokens costs nothing.
pub proof fn lemma_empty_call_costs_nothing(p: Pricing)
    ensures
        p.cost(0, 0) == 0,
{
    lemma_cost_is_capped_price(p, 0, 0);
}

/// Below saturation, one more output token adds exactly the output price,
/// whatever the input.
pub proof fn lemma_next_output_token(p: Pricing, in_tok: u64, out_tok: u64)
    requires
        out_tok < u64::MAX,
        p.cost(in_tok, (out_tok + 1) as u64) < u64::MAX,
    ensures
        p.cost(in_tok, (out_tok + 1) as u64) == p.cost(in_tok, out_tok) + p.output_uc_per_tok,
{
    let o1 = (out_tok + 1) as u64;
    lemma_cost_is_capped_price(p, in_tok, out_tok);
    lemma_cost_is_capped_price(p, in_tok, o1);
    assert(o1 * p.output_uc_per_tok == out_tok * p.output_uc_per_tok + p.output_uc_per_tok)
        by (nonlinear_arith)
        requires
            o1 == out_tok + 1,
    ;
    lemma_product_nonneg(in_tok, p.input_uc_per_tok);
    lemma_product_nonneg(out_tok, p.output_uc_per_tok);
}

/// Below saturation, one more input token adds exactly the input price,
/// whatever the output.
pub proof fn lemma_next_input_token(p: Pricing, in_tok: u64, out_tok: u64)
    requires
        in_tok < u64::MAX,
        p.cost((in_tok + 1) as u64, out_tok) < u64::MAX,
    ensures
        p.cost((in_tok + 1) as u64, out_tok) == p.cost(in_tok, out_tok) + p.input_uc_per_tok,
{
    let i1 = (in_tok + 1) as u64;
    lemma_cost_is_capped_price(p, in_tok, out_tok);
    lemma_cost_is_capped_price(p, i1, out_tok);
    assert(i1 * p.input_uc_per_tok == in_tok * p.input_uc_per_tok + p.input_uc_per_tok)
        by (nonlinear_arith)
        requires
            i1 == in_tok + 1,
    ;
    lemma_product_nonneg(in_tok, p.input_uc_per_tok);
    lemma_product_nonneg(out_tok, p.output_uc_per_tok);
}

/// Below saturation, the input's share of a cost is the input tokens at the
/// input price, however long the output is.
pub proof fn lemma_input_share(p: Pricing, in_tok: u64, out_tok: u64)
    requires
        p.cost(in_tok, out_tok) < u64::MAX,
    ensures
        p.cost(in_tok, out_tok) - p.cost(0, out_tok) == in_tok * p.input_uc_per_tok,
{
    lemma_cost_is_capped_price(p, in_tok, out_tok);
    lemma_cost_is_capped_price(p, 0, out_tok);
    lemma_product_nonneg(in_tok, p.input_uc_per_tok);
    lemma_product_nonneg(out_tok, p.output_uc_per_tok);
}

/// Below saturation, the output's share of a cost is the output tokens at the
/// output price, however long the input is.
pub proof fn lemma_output_share(p: Pricing, in_tok: u64, out_tok: u64)
    requires
        p.cost(in_tok, out_tok) < u64::MAX,
    ensures
        p.cost(in_tok, out_tok) - p.cost(in_tok, 0) == out_tok * p.output_uc_per_tok,
{
    lemma_cost_is_capped_price(p, in_tok, out_tok);
    lemma_cost_is_capped_price(p, in_tok, 0);
    lemma_product_nonneg(in_tok, p.input_uc_per_tok);
    lemma_product_nonneg(out_tok, p.output_uc_per_tok);
}

} // verus!
