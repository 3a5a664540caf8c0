//! The cart snapshot the host hands in, and shared vocabulary: merchandise
//! kinds, the per-line proposal, discount classes, and invocation failure.

use crate::money::Money;
use vstd::prelude::*;

verus! {

/// What a cart line sells: a product variant, which may carry a reference
/// ("compare-at" / MRP) price, or some other kind of merchandise such as a
/// bundle, which never has one.
#[derive(Clone, Debug, PartialEq)]
pub enum Merchandise {
    ProductVariant { id: String, compare_at_price: Option<String> },
    Other { id: String },
}

impl Merchandise {
    /// The stable identifier of the merchandise.
    pub open spec fn spec_id(&self) -> Seq<char> {
        match self {
            Merchandise::ProductVariant { id, .. } => id@,
            Merchandise::Other { id } => id@,
        }
    }

    /// The stable identifier of the merchandise.
    pub fn id(&self) -> (r: &String)
        ensures
            r@ == self.spec_id(),
    {
        match self {
            Merchandise::ProductVariant { id, .. } => id,
            Merchandise::Other { id } => id,
        }
    }
}

/// One line of the cart snapshot, amounts still as the raw decimal strings
/// the host supplied.
#[derive(Clone, Debug, PartialEq)]
pub struct CartLine {
    /// What the line currently costs: the selling price.
    pub total_amount: String,
    /// The line's subtotal; input to the max-subtotal lookup only.
    pub subtotal_amount: String,
    pub merchandise: Merchandise,
}

/// The cart snapshot: its lines, in the order the host supplied them.
#[derive(Clone, Debug, PartialEq)]
pub struct Cart {
    pub lines: Vec<CartLine>,
}

/// The engine's decision for one line: discount this line's target by
/// `amount`, bringing it down to 75% of its reference price.
#[derive(Clone, Debug, PartialEq)]
pub struct DiscountProposal {
    pub target_id: String,
    pub amount: Money,
    pub message: String,
}

/// The one message every proposal carries.
pub open spec fn discount_message() -> Seq<char> {
    "25% off MRP"@
}

/// Builds the proposal message.
pub fn discount_message_text() -> (r: String)
    ensures
        r@ == discount_message(),
{
    "25% off MRP".to_owned()
}

/// A discount category the host may permit for one invocation.
#[derive(Clone, Copy, Debug, PartialEq, Eq, Structural)]
pub enum DiscountClass {
    Order,
    Product,
}

/// Failure of a whole invocation.  The only fatal condition is a cart with
/// no lines, on which the max-subtotal lookup has nothing to select.
#[derive(Clone, Copy, Debug, PartialEq, Eq, Structural)]
pub enum EngineError {
    EmptyCart,
}

impl EngineError {
    /// A descriptive message for the host.
    pub fn describe(&self) -> (r: String)
        ensures
            r@ == "No cart lines found"@,
    {
        "No cart lines found".to_owned()
    }
}

} // verus!
