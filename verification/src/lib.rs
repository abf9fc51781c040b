//! Order-fulfillment core of a perpetual-futures clearing house.
//!
//! Given a taker order and an optional resting maker order, with the market's
//! virtual automated-market-maker reserves as fallback liquidity, the library
//! decides whether, how much, and at what price a trade executes, then updates
//! both parties' positions, fees, and order state, and the market's aggregate
//! bookkeeping. A post-trade margin check can void an otherwise valid fill and
//! restore every mutated value.

pub mod amm;
pub mod auction;
pub mod bank;
pub mod margin;
pub mod oracle;
pub mod orders;
pub mod constants;
pub mod errors;
pub mod fees;
pub mod fulfillment;
pub mod keys;
pub mod matching;
pub mod records;
pub mod market;
pub mod math;
pub mod position;
pub mod user;
