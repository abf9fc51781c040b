//! Error taxonomy of the fulfillment core.
//!
//! Expected no-trade outcomes (an ineligible pair, a zero crossing size, a
//! margin breach) are not errors: they surface as a zero-size fill with a
//! success result. The variants here are the surfaced failures: invalid input
//! that the caller can recover from, and fatal arithmetic faults that abort
//! the whole invocation.

use vstd::prelude::*;

verus! {

#[derive(Clone, Copy, Debug, PartialEq, Eq, Structural)]
pub enum ErrorCode {
    /// Fixed-point overflow/underflow, a division by zero, or a reserve curve
    /// producing a negative or undefined output.
    MathError,
    /// The referenced order is not open.
    OrderNotOpen,
    /// The order's market does not match the requested market index.
    InvalidOrderMarket,
    /// A maker order presented for matching is not post-only.
    MakerOrderNotPostOnly,
    /// The user holds no position record for the order's market.
    NoPositionInMarket,
    /// The market index is not present in the supplied market collection.
    MarketNotFound,
    /// The market account exists but has not been initialized.
    MarketNotInitialized,
    /// No deposit bank record for a referenced bank index.
    BankNotFound,
    /// A margin computation needed an oracle price that was not supplied.
    OracleNotFound,
}

} // verus!
