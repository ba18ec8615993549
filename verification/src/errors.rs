use vstd::prelude::*;

verus! {

/// Failures of the market data feed, named after the I/O error kind each stands for.
#[derive(Debug, Clone, Copy, PartialEq, Eq, Structural)]
pub enum MarketError {
    /// Outside the trading window: the feed should wait.
    WouldBlock,
    /// Data that cannot be used (for instance no database connection).
    InvalidData,
    /// A frame could not be written whole.
    WriteZero,
}

} // verus!
