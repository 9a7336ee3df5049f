use vstd::prelude::*;

verus! {

/// What can go wrong in a trading cycle.
#[derive(Clone, Copy, Debug, PartialEq, Eq, Structural)]
pub enum TradeError {
    /// A required configuration value is absent.
    ConfigMissing,
    /// The network call failed.
    Transport,
    /// A response body does not have the expected shape.
    Decode,
    /// The candle list came back empty.
    NoData,
    /// The batch order could not be placed.
    OrderPlacement,
    /// The batch cancel could not be sent.
    OrderCancellation,
    /// A request body could not be serialized.
    Serialization,
    /// The opening price is not a positive decimal number.
    InvalidPrice,
    /// The symbol has no formatting rule.
    UnsupportedSymbol,
}

} // verus!
