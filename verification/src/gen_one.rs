//! Generation 1 of the host protocol: a flat discount list under one global
//! application strategy.
//!
//! The converged behaviour of this generation is modelled: the strategy is
//! `All` (every qualifying line is discounted; an early revision used
//! `First`, applying only the earliest-qualifying line).

use crate::cart::Cart;
use crate::cart::CartLine;
use crate::cart::EngineError;
use crate::cart::discount_message;
use crate::evaluate::evaluate_line;
use crate::evaluate::spec_proposals;
use crate::money::Money;
use vstd::prelude::*;

verus! {

/// Policy for how many of the batch's discounts the host applies.
#[derive(Clone, Copy, Debug, PartialEq, Eq, Structural)]
pub enum DiscountApplicationStrategy {
    First,
    All,
}

/// A product variant a discount applies to.
#[derive(Clone, Debug, PartialEq)]
pub struct ProductVariantTarget {
    pub id: String,
    pub quantity: Option<u64>,
}

/// Where a discount applies.
#[derive(Clone, Debug, PartialEq)]
pub enum Target {
    ProductVariant(ProductVariantTarget),
}

/// A fixed amount taken off a line; applied once, not per unit.
#[derive(Clone, Debug, PartialEq)]
pub struct FixedAmountValue {
    pub amount: Money,
    pub applies_to_each_item: bool,
}

/// The value of a discount.
#[derive(Clone, Debug, PartialEq)]
pub enum Value {
    FixedAmount(FixedAmountValue),
}

/// One entry of the flat discount list.
#[derive(Clone, Debug, PartialEq)]
pub struct Discount {
    pub message: Option<String>,
    pub targets: Vec<Target>,
    pub value: Value,
}

/// The generation-1 output: the discounts plus one global strategy.
#[derive(Clone, Debug, PartialEq)]
pub struct FunctionRunResult {
    pub discounts: Vec<Discount>,
    pub discount_application_strategy: DiscountApplicationStrategy,
}

/// The generation-1 input: the cart snapshot.
#[derive(Clone, Debug, PartialEq)]
pub struct RunInput {
    pub cart: Cart,
}

/// One flat discount entry carries one proposal: the fixed message, a single
/// product-variant target without a quantity, and the exact amount applied
/// once to the whole line.
pub open spec fn discount_matches(d: Discount, p: (Seq<char>, int)) -> bool {
    &&& d.message matches Some(m) && m@ == discount_message()
    &&& d.targets@.len() == 1
    &&& d.targets@[0] matches Target::ProductVariant(t) && t.id@ == p.0 && t.quantity is None
    &&& d.value matches Value::FixedAmount(v) && v.amount.units == p.1 && v.amount.wf()
        && !v.applies_to_each_item
}

/// The whole generation-1 contract: strategy `All`, and one well-shaped
/// discount entry per eligible line, in cart order.
pub open spec fn spec_run_ok(lines: Seq<CartLine>, out: FunctionRunResult) -> bool {
    &&& out.discount_application_strategy == DiscountApplicationStrategy::All
    &&& out.discounts@.len() == spec_proposals(lines).len()
    &&& forall|i: int|
        0 <= i < spec_proposals(lines).len() ==> discount_matches(
            #[trigger] out.discounts@[i],
            spec_proposals(lines)[i],
        )
}

/// Generation-1 entry point: evaluates every line and returns the flat
/// discount list under the `All` strategy.  It never fails: an empty cart,
/// an unparseable line or no eligible line just yields fewer discounts.
pub fn run(input: &RunInput) -> (r: Result<FunctionRunResult, EngineError>)
    ensures
        r is Ok,
        spec_run_ok(input.cart.lines@, r->Ok_0),
{
    let lines = &input.cart.lines;
    let mut discounts: Vec<Discount> = Vec::new();
    let mut i: usize = 0;
    while i < lines.len()
        invariant
            i <= lines@.len(),
            discounts@.len() == spec_proposals(lines@.subrange(0, i as int)).len(),
            forall|j: int|
                0 <= j < discounts@.len() ==> discount_matches(
                    #[trigger] discounts@[j],
                    spec_proposals(lines@.subrange(0, i as int))[j],
                ),
        decreases lines@.len() - i,
    {
        let ghost prefix = lines@.subrange(0, i as int);
        match evaluate_line(&lines[i]) {
            Some(p) => {
                let mut targets: Vec<Target> = Vec::new();
                targets.push(
                    Target::ProductVariant(
                        ProductVariantTarget { id: p.target_id, quantity: None },
                    ),
                );
                discounts.push(
                    Discount {
                        message: Some(p.message),
                        targets,
                        value: Value::FixedAmount(
                            FixedAmountValue { amount: p.amount, applies_to_each_item: false },
                        ),
                    },
                );
            },
            None => {},
        }
        i = i + 1;
        proof {
            assert(lines@.subrange(0, i as int).drop_last() =~= prefix);
            assert(lines@.subrange(0, i as int).last() == lines@[i - 1]);
        }
    }
    proof {
        assert(lines@.subrange(0, lines@.len() as int) =~= lines@);
    }
    Ok(
        FunctionRunResult {
            discounts,
            discount_application_strategy: DiscountApplicationStrategy::All,
        },
    )
}

/// Observable content of one discount entry: message, target identifier,
/// whether a quantity is present, amount in units, and the per-item flag.
pub open spec fn discount_obs(d: Discount) -> (Seq<char>, Seq<char>, bool, int, bool) {
    (
        match d.message {
            Some(m) => m@,
            None => Seq::empty(),
        },
        match d.targets@[0] {
            Target::ProductVariant(t) => t.id@,
        },
        match d.targets@[0] {
            Target::ProductVariant(t) => t.quantity is Some,
        },
        match d.value {
            Value::FixedAmount(v) => v.amount.units as int,
        },
        match d.value {
            Value::FixedAmount(v) => v.applies_to_each_item,
        },
    )
}

/// Everything the host serializes from a generation-1 result.
pub open spec fn run_obs(out: FunctionRunResult) -> (
    DiscountApplicationStrategy,
    Seq<(Seq<char>, Seq<char>, bool, int, bool)>,
) {
    (
        out.discount_application_strategy,
        Seq::new(out.discounts@.len(), |i: int| discount_obs(out.discounts@[i])),
    )
}

/// Re-running the engine on the same snapshot is idempotent: any two results
/// that satisfy the generation-1 contract for the same cart lines have
/// identical observable content, so any deterministic rendering of them is
/// byte-identical.
pub proof fn lemma_run_deterministic(
    lines: Seq<CartLine>,
    out1: FunctionRunResult,
    out2: FunctionRunResult,
)
    requires
        spec_run_ok(lines, out1),
        spec_run_ok(lines, out2),
    ensures
        run_obs(out1) == run_obs(out2),
{
    let s1 = Seq::new(out1.discounts@.len(), |i: int| discount_obs(out1.discounts@[i]));
    let s2 = Seq::new(out2.discounts@.len(), |i: int| discount_obs(out2.discounts@[i]));
    assert forall|i: int| 0 <= i < s1.len() implies s1[i] == s2[i] by {
        assert(discount_matches(out1.discounts@[i], spec_proposals(lines)[i]));
        assert(discount_matches(out2.discounts@[i], spec_proposals(lines)[i]));
    }
    assert(s1 =~= s2);
}

} // verus!
