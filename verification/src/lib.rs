//! A discount decision engine for shopping carts.
//!
//! For every cart line whose selling price exceeds 75% of its reference
//! ("compare-at" / MRP) price, the engine proposes a discount that brings the
//! effective price down to that 75% threshold.  Monetary values are handled as
//! exact decimals throughout: no binary floating point ever touches a price.
//!
//! The crate is a pure library: the host that supplies the cart snapshot and
//! consumes the proposals lives outside it.

pub mod cart;
pub mod evaluate;
pub mod gen_one;
pub mod gen_two;
pub mod money;
