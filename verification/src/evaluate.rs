//! Per-line eligibility: at most one discount proposal per cart line.

use crate::cart::CartLine;
use crate::cart::DiscountProposal;
use crate::cart::Merchandise;
use crate::cart::discount_message;
use crate::cart::discount_message_text;
use crate::money::MAX_UNITS;
use crate::money::Money;
use crate::money::lemma_amount_units_mod;
use crate::money::parse_amount;
use crate::money::spec_amount_units;
use vstd::arithmetic::div_mod::lemma_div_multiples_vanish;
use vstd::arithmetic::div_mod::lemma_fundamental_div_mod;
use vstd::prelude::*;

verus! {

/// Reference (MRP) price of a line's merchandise, in units: present only for
/// a product variant whose compare-at price is present and parses.
pub open spec fn spec_reference_units(m: Merchandise) -> Option<int> {
    match m {
        Merchandise::ProductVariant { id: _, compare_at_price: Some(p) } => spec_amount_units(p@),
        _ => None,
    }
}

/// The discount threshold: 75% of the reference price.
pub open spec fn spec_threshold(ref_units: int) -> int {
    3 * ref_units / 4
}

/// The per-line rule, in units.  `None` when the selling price is
/// unparseable, the reference price is absent or unparseable, or the line
/// already sells at or below the threshold; otherwise the strictly positive
/// amount that brings the line down to the threshold.
pub open spec fn spec_line_discount(line: CartLine) -> Option<int> {
    match spec_amount_units(line.total_amount@) {
        None => None,
        Some(selling) => match spec_reference_units(line.merchandise) {
            None => None,
            Some(reference) => {
                let threshold = spec_threshold(reference);
                if selling <= threshold {
                    None
                } else if selling - threshold <= 0 {
                    None
                } else {
                    Some(selling - threshold)
                }
            },
        },
    }
}

/// Evaluates one cart line: parses its amounts and decides whether and by
/// how much to discount it.  A line with an unparseable selling price, or
/// without a parseable reference price, is skipped, never failed.
pub fn evaluate_line(line: &CartLine) -> (r: Option<DiscountProposal>)
    ensures
        match r {
            Some(p) => {
                &&& spec_line_discount(*line) == Some(p.amount.units as int)
                &&& p.amount.wf()
                &&& p.target_id@ == line.merchandise.spec_id()
                &&& p.message@ == discount_message()
            },
            None => spec_line_discount(*line) is None,
        },
{
    let selling = match parse_amount(line.total_amount.as_str()) {
        Some(m) => m,
        None => {
            return None;
        },
    };
    let reference_opt: Option<Money> = match &line.merchandise {
        Merchandise::ProductVariant { id: _, compare_at_price: Some(p) } => parse_amount(
            p.as_str(),
        ),
        _ => None,
    };
    let reference = match reference_opt {
        Some(m) => m,
        None => {
            return None;
        },
    };
    let threshold: u64 = 3 * reference.units / 4;
    if selling.units <= threshold {
        return None;
    }
    let amount: u64 = selling.units - threshold;
    if amount == 0 {
        // defensive: a zero or negative discount is never proposed
        return None;
    }
    Some(
        DiscountProposal {
            target_id: line.merchandise.id().clone(),
            amount: Money { units: amount },
            message: discount_message_text(),
        },
    )
}

/// The eligible lines of a cart, in order: the merchandise identifier and
/// discount amount of every line the per-line rule accepts.
pub open spec fn spec_proposals(lines: Seq<CartLine>) -> Seq<(Seq<char>, int)>
    decreases lines.len(),
{
    if lines.len() == 0 {
        Seq::empty()
    } else {
        let rest = spec_proposals(lines.drop_last());
        match spec_line_discount(lines.last()) {
            Some(d) => rest.push((lines.last().merchandise.spec_id(), d)),
            None => rest,
        }
    }
}

/// A present reference price came through the amount parser, so it is
/// bounded and a whole number of ten-thousandths of a currency unit.
pub proof fn lemma_reference_units_mod(m: Merchandise)
    requires
        spec_reference_units(m) is Some,
    ensures
        0 <= spec_reference_units(m)->Some_0 <= MAX_UNITS,
        spec_reference_units(m)->Some_0 % 100 == 0,
        spec_reference_units(m)->Some_0 % 4 == 0,
{
    match m {
        Merchandise::ProductVariant { id: _, compare_at_price: Some(p) } => {
            lemma_amount_units_mod(p@);
            let r = spec_reference_units(m)->Some_0;
            let q = r / 100;
            lemma_fundamental_div_mod(r, 100);
            assert(r == 100 * q);
            assert(r % 4 == 0) by (nonlinear_arith)
                requires
                    r == 100 * q,
            ;
        },
        _ => {},
    }
}

/// With the reference divisible by four, 75% of it is exact: four times the
/// threshold equals three times the reference.
pub proof fn lemma_threshold_exact(r: int)
    requires
        r >= 0,
        r % 4 == 0,
    ensures
        4 * spec_threshold(r) == 3 * r,
        spec_threshold(r) >= 0,
{
    let q = r / 4;
    lemma_fundamental_div_mod(r, 4);
    assert(r == 4 * q);
    assert(3 * r == 4 * (3 * q));
    lemma_div_multiples_vanish(3 * q, 4);
    assert(3 * r / 4 == 3 * q);
}

/// A line whose reference price is absent or unparseable gets no proposal.
pub proof fn lemma_no_reference_no_proposal(line: CartLine)
    requires
        spec_reference_units(line.merchandise) is None,
    ensures
        spec_line_discount(line) is None,
{
}

/// A line whose selling price is unparseable gets no proposal.
pub proof fn lemma_unparseable_selling_no_proposal(line: CartLine)
    requires
        spec_amount_units(line.total_amount@) is None,
    ensures
        spec_line_discount(line) is None,
{
}

/// Merchandise other than a product variant never gets a proposal, whatever
/// amounts its line carries.
pub proof fn lemma_non_variant_no_proposal(line: CartLine)
    requires
        line.merchandise matches Merchandise::Other { .. },
    ensures
        spec_line_discount(line) is None,
{
}

/// A line selling at or below 75% of its reference price gets no proposal.
pub proof fn lemma_at_or_below_threshold_no_proposal(line: CartLine)
    requires
        spec_amount_units(line.total_amount@) is Some,
        spec_reference_units(line.merchandise) is Some,
        4 * spec_amount_units(line.total_amount@)->Some_0 <= 3 * spec_reference_units(
            line.merchandise,
        )->Some_0,
    ensures
        spec_line_discount(line) is None,
{
    let s = spec_amount_units(line.total_amount@)->Some_0;
    let r = spec_reference_units(line.merchandise)->Some_0;
    lemma_reference_units_mod(line.merchandise);
    lemma_threshold_exact(r);
    assert(4 * s <= 4 * spec_threshold(r));
}

/// A line selling strictly above 75% of its reference price gets exactly one
/// proposal, and its amount is exactly the selling price minus 75% of the
/// reference price: four times the amount is four times the selling price
/// minus three times the reference price, with no rounding.
pub proof fn lemma_above_threshold_exact_discount(line: CartLine)
    requires
        spec_amount_units(line.total_amount@) is Some,
        spec_reference_units(line.merchandise) is Some,
        4 * spec_amount_units(line.total_amount@)->Some_0 > 3 * spec_reference_units(
            line.merchandise,
        )->Some_0,
    ensures
        ({
            let s = spec_amount_units(line.total_amount@)->Some_0;
            let r = spec_reference_units(line.merchandise)->Some_0;
            &&& spec_line_discount(line) is Some
            &&& spec_line_discount(line)->Some_0 == s - spec_threshold(r)
            &&& spec_line_discount(line)->Some_0 > 0
            &&& 4 * spec_line_discount(line)->Some_0 == 4 * s - 3 * r
        }),
{
    let s = spec_amount_units(line.total_amount@)->Some_0;
    let r = spec_reference_units(line.merchandise)->Some_0;
    lemma_reference_units_mod(line.merchandise);
    lemma_threshold_exact(r);
    assert(4 * s > 4 * spec_threshold(r));
}

} // verus!
