use vstd::prelude::*;

verus! {

/// Number of supply/demand snapshots kept for the marketplace dashboard.
pub const MAX_SUPPLY_DEMAND_SNAPSHOTS: usize = 60;

/// Number of money balances kept per company.
pub const MAX_MONEY_HISTORY: usize = 1_000;

/// Number of best prices kept per resource.
pub const MAX_PRICE_HISTORY: usize = 1_000;

/// Number of action labels kept per company.
pub const MAX_ACTION_HISTORY: usize = 200;

} // verus!
