use vstd::prelude::*;

verus! {

/// Why an operation on a token record was rejected. On every error the
/// record is left exactly as it was.
#[derive(Clone, Copy, Debug, PartialEq, Eq, Structural)]
pub enum TokenError {
    /// The caller is not the record's creator.
    Unauthorized,
    /// Buying or selling was attempted before trading was enabled.
    TradingDisabled,
    /// A supply or volume counter would leave the range of `u64`.
    Overflow,
}

} // verus!
