//! The marketplace that the review engine serves.

use vstd::prelude::*;

verus! {

/// The marker type that names the marketplace application's interface: the
/// hosting ledger attaches the application's operation and query types to
/// it.
#[derive(Clone, Copy, Debug, PartialEq, Eq, Structural)]
pub struct MarketAbi;

} // verus!
