//! Generation 2 of the host protocol: class-gated, operation-typed output.
//!
//! Each eligible line's proposal is wrapped in a product-discount-add
//! operation of its own, with selection strategy `All` (the schema also
//! allows batching many candidates under one operation; the one-operation-
//! per-line shape is used consistently here).  Product operations are only
//! produced when the "product" discount class is permitted; when neither
//! "order" nor "product" is permitted the run short-circuits to an empty
//! batch before looking at any line.

use crate::cart::Cart;
use crate::cart::CartLine;
use crate::cart::DiscountClass;
use crate::cart::EngineError;
use crate::cart::discount_message;
use crate::evaluate::evaluate_line;
use crate::evaluate::spec_proposals;
use crate::money::Money;
use crate::money::parse_amount;
use crate::money::spec_amount_units;
use vstd::prelude::*;

verus! {

/// Policy for how many of an operation's candidates the host applies.
#[derive(Clone, Copy, Debug, PartialEq, Eq, Structural)]
pub enum ProductDiscountSelectionStrategy {
    First,
    All,
}

/// Where a product discount candidate applies.
#[derive(Clone, Debug, PartialEq)]
pub enum ProductDiscountCandidateTarget {
    ProductVariant { id: String, quantity: Option<u64> },
}

/// The value of a product discount candidate; the amount is applied once to
/// the line, not per unit.
#[derive(Clone, Debug, PartialEq)]
pub enum ProductDiscountCandidateValue {
    FixedAmount { amount: Money, applies_to_each_item: bool },
}

/// One candidate discount inside a product-discount-add operation.
#[derive(Clone, Debug, PartialEq)]
pub struct ProductDiscountCandidate {
    pub message: Option<String>,
    pub targets: Vec<ProductDiscountCandidateTarget>,
    pub value: ProductDiscountCandidateValue,
}

/// An operation adding product discounts.
#[derive(Clone, Debug, PartialEq)]
pub struct ProductDiscountsAddOperation {
    pub selection_strategy: ProductDiscountSelectionStrategy,
    pub candidates: Vec<ProductDiscountCandidate>,
}

/// One typed operation of the output batch.
#[derive(Clone, Debug, PartialEq)]
pub enum CartOperation {
    ProductDiscountsAdd(ProductDiscountsAddOperation),
}

/// The generation-2 output: an ordered batch of typed operations.
#[derive(Clone, Debug, PartialEq)]
pub struct CartLinesDiscountsGenerateRunResult {
    pub operations: Vec<CartOperation>,
}

/// The discount classes the host permits for this invocation.
#[derive(Clone, Debug, PartialEq)]
pub struct DiscountContext {
    pub discount_classes: Vec<DiscountClass>,
}

/// The generation-2 input: the cart snapshot and the permitted classes.
#[derive(Clone, Debug, PartialEq)]
pub struct GenerateRunInput {
    pub cart: Cart,
    pub discount: DiscountContext,
}

/// Membership of a discount class in the permitted set.
pub open spec fn spec_has_class(classes: Seq<DiscountClass>, c: DiscountClass) -> bool {
    exists|i: int| 0 <= i < classes.len() && classes[i] == c
}

/// Whether the permitted classes include `c`.
fn has_class(classes: &Vec<DiscountClass>, c: DiscountClass) -> (r: bool)
    ensures
        r == spec_has_class(classes@, c),
{
    let mut i: usize = 0;
    while i < classes.len()
        invariant
            i <= classes@.len(),
            forall|j: int| 0 <= j < i ==> classes@[j] != c,
        decreases classes@.len() - i,
    {
        if classes[i] == c {
            assert(classes@[i as int] == c);
            return true;
        }
        i = i + 1;
    }
    false
}

/// Rank of a line for the max-subtotal lookup: its parsed subtotal in
/// units, an unparseable subtotal ranking below every parsed one.
pub open spec fn spec_line_rank(line: CartLine) -> int {
    match spec_amount_units(line.subtotal_amount@) {
        Some(v) => v,
        None => -1,
    }
}

/// Parses a line's subtotal into its rank.
fn rank_of(line: &CartLine) -> (r: i64)
    ensures
        r as int == spec_line_rank(*line),
{
    match parse_amount(line.subtotal_amount.as_str()) {
        Some(m) => m.units as i64,
        None => -1,
    }
}

/// The max-subtotal lookup selects index `i`: no line ranks higher, and
/// among equal ranks the last one wins.
pub open spec fn spec_is_max_line(lines: Seq<CartLine>, i: int) -> bool {
    &&& 0 <= i < lines.len()
    &&& forall|j: int| 0 <= j < lines.len() ==> spec_line_rank(lines[j]) <= spec_line_rank(lines[i])
    &&& forall|j: int| i < j < lines.len() ==> spec_line_rank(lines[j]) < spec_line_rank(lines[i])
}

/// Selects the cart line with the maximum subtotal amount.  This is the
/// input to an order-level discount path that no emitted operation consumes
/// yet; an empty cart, on which there is nothing to select, is the one
/// fatal condition of a generation-2 invocation.
pub fn max_cart_line(lines: &Vec<CartLine>) -> (r: Result<usize, EngineError>)
    ensures
        r is Err <==> lines@.len() == 0,
        r matches Err(e) ==> e == EngineError::EmptyCart,
        r matches Ok(i) ==> spec_is_max_line(lines@, i as int),
{
    if lines.len() == 0 {
        return Err(EngineError::EmptyCart);
    }
    let mut best: usize = 0;
    let mut best_rank: i64 = rank_of(&lines[0]);
    let mut i: usize = 1;
    while i < lines.len()
        invariant
            1 <= i <= lines@.len(),
            best < i,
            best_rank == spec_line_rank(lines@[best as int]),
            forall|j: int| 0 <= j < i ==> spec_line_rank(lines@[j]) <= best_rank,
            forall|j: int| best < j < i ==> spec_line_rank(lines@[j]) < best_rank,
        decreases lines@.len() - i,
    {
        let rk: i64 = rank_of(&lines[i]);
        if rk >= best_rank {
            best = i;
            best_rank = rk;
        }
        i = i + 1;
    }
    Ok(best)
}

/// One operation wraps one proposal: strategy `All` and a single candidate
/// with the fixed message, one product-variant target without a quantity,
/// and the exact amount applied once to the whole line.
pub open spec fn candidate_matches(c: ProductDiscountCandidate, p: (Seq<char>, int)) -> bool {
    &&& c.message matches Some(m) && m@ == discount_message()
    &&& c.targets@.len() == 1
    &&& c.targets@[0] matches ProductDiscountCandidateTarget::ProductVariant { id, quantity }
        && id@ == p.0 && quantity is None
    &&& c.value matches ProductDiscountCandidateValue::FixedAmount { amount, applies_to_each_item }
        && amount.units == p.1 && amount.wf() && !applies_to_each_item
}

/// See `candidate_matches`.
pub open spec fn operation_matches(op: CartOperation, p: (Seq<char>, int)) -> bool {
    match op {
        CartOperation::ProductDiscountsAdd(op_add) => {
            &&& op_add.selection_strategy == ProductDiscountSelectionStrategy::All
            &&& op_add.candidates@.len() == 1
            &&& candidate_matches(op_add.candidates@[0], p)
        },
    }
}

/// The whole generation-2 contract for a successful run.  Without the
/// "product" class the batch is empty: product operations are not permitted
/// then, and the order-level path emits nothing yet.  With it, the batch
/// holds one well-shaped operation per eligible line, in cart order.
pub open spec fn spec_generate_ok(
    input: GenerateRunInput,
    out: CartLinesDiscountsGenerateRunResult,
) -> bool {
    let lines = input.cart.lines@;
    if !spec_has_class(input.discount.discount_classes@, DiscountClass::Product) {
        out.operations@.len() == 0
    } else {
        &&& out.operations@.len() == spec_proposals(lines).len()
        &&& forall|i: int|
            0 <= i < spec_proposals(lines).len() ==> operation_matches(
                #[trigger] out.operations@[i],
                spec_proposals(lines)[i],
            )
    }
}

/// Generation-2 entry point: fails on an empty cart, short-circuits to an
/// empty batch when neither discount class is permitted, and otherwise
/// produces one product-discount operation per eligible line.
pub fn cart_lines_discounts_generate_run(input: &GenerateRunInput) -> (r: Result<
    CartLinesDiscountsGenerateRunResult,
    EngineError,
>)
    ensures
        r is Err <==> input.cart.lines@.len() == 0,
        r matches Err(e) ==> e == EngineError::EmptyCart,
        r matches Ok(out) ==> spec_generate_ok(*input, out),
{
    // the order-level hook: selected here, consumed by no operation yet
    let _max_cart_line = match max_cart_line(&input.cart.lines) {
        Ok(i) => i,
        Err(e) => {
            return Err(e);
        },
    };
    let has_order = has_class(&input.discount.discount_classes, DiscountClass::Order);
    let has_product = has_class(&input.discount.discount_classes, DiscountClass::Product);
    if !has_order && !has_product {
        return Ok(CartLinesDiscountsGenerateRunResult { operations: Vec::new() });
    }
    let mut operations: Vec<CartOperation> = Vec::new();
    if has_product {
        let lines = &input.cart.lines;
        let mut i: usize = 0;
        while i < lines.len()
            invariant
                i <= lines@.len(),
                operations@.len() == spec_proposals(lines@.subrange(0, i as int)).len(),
                forall|j: int|
                    0 <= j < operations@.len() ==> operation_matches(
                        #[trigger] operations@[j],
                        spec_proposals(lines@.subrange(0, i as int))[j],
                    ),
            decreases lines@.len() - i,
        {
            let ghost prefix = lines@.subrange(0, i as int);
            match evaluate_line(&lines[i]) {
                Some(p) => {
                    let mut targets: Vec<ProductDiscountCandidateTarget> = Vec::new();
                    targets.push(
                        ProductDiscountCandidateTarget::ProductVariant {
                            id: p.target_id,
                            quantity: None,
                        },
                    );
                    let mut candidates: Vec<ProductDiscountCandidate> = Vec::new();
                    candidates.push(
                        ProductDiscountCandidate {
                            message: Some(p.message),
                            targets,
                            value: ProductDiscountCandidateValue::FixedAmount {
                                amount: p.amount,
                                applies_to_each_item: false,
                            },
                        },
                    );
                    operations.push(
                        CartOperation::ProductDiscountsAdd(
                            ProductDiscountsAddOperation {
                                selection_strategy: ProductDiscountSelectionStrategy::All,
                                candidates,
                            },
                        ),
                    );
                },
                None => {},
            }
            i = i + 1;
            proof {
                assert(lines@.subrange(0, i as int).drop_last() =~= prefix);
                assert(lines@.subrange(0, i as int).last() == lines@[i - 1]);
            }
        }
        proof {
            assert(lines@.subrange(0, lines@.len() as int) =~= lines@);
        }
    }
    Ok(CartLinesDiscountsGenerateRunResult { operations })
}

/// Discount-class gating: with neither "order" nor "product" permitted, a
/// successful run returns an empty operation batch, whatever the lines.
pub proof fn lemma_gating_empty(
    input: GenerateRunInput,
    out: CartLinesDiscountsGenerateRunResult,
)
    requires
        spec_generate_ok(input, out),
        !spec_has_class(input.discount.discount_classes@, DiscountClass::Order),
        !spec_has_class(input.discount.discount_classes@, DiscountClass::Product),
    ensures
        out.operations@.len() == 0,
{
}

/// Observable content of one operation: strategy, candidate message, target
/// identifier, whether a quantity is present, amount in units, per-item
/// flag.
pub open spec fn operation_obs(op: CartOperation) -> (
    ProductDiscountSelectionStrategy,
    Seq<char>,
    Seq<char>,
    bool,
    int,
    bool,
) {
    match op {
        CartOperation::ProductDiscountsAdd(op_add) => (
            op_add.selection_strategy,
            match op_add.candidates@[0].message {
                Some(m) => m@,
                None => Seq::empty(),
            },
            match op_add.candidates@[0].targets@[0] {
                ProductDiscountCandidateTarget::ProductVariant { id, quantity: _ } => id@,
            },
            match op_add.candidates@[0].targets@[0] {
                ProductDiscountCandidateTarget::ProductVariant { id: _, quantity } => quantity
                    is Some,
            },
            match op_add.candidates@[0].value {
                ProductDiscountCandidateValue::FixedAmount { amount, applies_to_each_item: _ } =>
                    amount.units as int,
            },
            match op_add.candidates@[0].value {
                ProductDiscountCandidateValue::FixedAmount { amount: _, applies_to_each_item } =>
                    applies_to_each_item,
            },
        ),
    }
}

/// Everything the host serializes from a generation-2 result.
pub open spec fn generate_obs(out: CartLinesDiscountsGenerateRunResult) -> Seq<
    (ProductDiscountSelectionStrategy, Seq<char>, Seq<char>, bool, int, bool),
> {
    Seq::new(out.operations@.len(), |i: int| operation_obs(out.operations@[i]))
}

/// Re-running the engine on the same snapshot is idempotent: any two results
/// that satisfy the generation-2 contract for the same input have identical
/// observable content, so any deterministic rendering of them is
/// byte-identical.
pub proof fn lemma_generate_deterministic(
    input: GenerateRunInput,
    out1: CartLinesDiscountsGenerateRunResult,
    out2: CartLinesDiscountsGenerateRunResult,
)
    requires
        spec_generate_ok(input, out1),
        spec_generate_ok(input, out2),
    ensures
        generate_obs(out1) == generate_obs(out2),
{
    let lines = input.cart.lines@;
    let s1 = generate_obs(out1);
    let s2 = generate_obs(out2);
    if spec_has_class(input.discount.discount_classes@, DiscountClass::Product) {
        assert forall|i: int| 0 <= i < s1.len() implies s1[i] == s2[i] by {
            assert(operation_matches(out1.operations@[i], spec_proposals(lines)[i]));
            assert(operation_matches(out2.operations@[i], spec_proposals(lines)[i]));
        }
    }
    assert(s1 =~= s2);
}

} // verus!
