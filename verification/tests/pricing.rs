use token_budgets_rig::Pricing;

// The prices that `per_million_usd(3.0, 15.0)` gives: $3 and $15 per million
// tokens are 300 and 1500 micro-cents per token.
fn sonnet() -> Pricing {
    Pricing { input_uc_per_tok: 300, output_uc_per_tok: 1500 }
}

#[test]
fn cost_is_input_plus_output_price() {
    assert_eq!(sonnet().cost_uc(10, 200), 303_000);
    assert_eq!(sonnet().cost_uc(0, 0), 0);
    assert_eq!(sonnet().cost_uc(1, 0), 300);
    assert_eq!(sonnet().cost_uc(0, 1), 1500);
}

#[test]
fn cost_saturates_instead_of_wrapping() {
    assert_eq!(sonnet().cost_uc(u64::MAX, 0), u64::MAX);
    assert_eq!(sonnet().cost_uc(0, u64::MAX / 1000), u64::MAX);
    let p = Pricing { input_uc_per_tok: 1, output_uc_per_tok: 1 };
    assert_eq!(p.cost_uc(u64::MAX - 5, 5), u64::MAX);
    assert_eq!(p.cost_uc(u64::MAX - 5, 6), u64::MAX);
    assert_eq!(p.cost_uc(u64::MAX - 5, 4), u64::MAX - 1);
}

#[test]
fn cost_grows_with_tokens() {
    let p = sonnet();
    assert!(p.cost_uc(10, 5) <= p.cost_uc(11, 5));
    assert!(p.cost_uc(10, 5) <= p.cost_uc(10, 6));
    assert!(p.cost_uc(10, 5) < p.cost_uc(10, 6));
}

#[test]
fn free_pricing_costs_nothing() {
    let p = Pricing { input_uc_per_tok: 0, output_uc_per_tok: 0 };
    assert_eq!(p.cost_uc(u64::MAX, u64::MAX), 0);
}
