//! Settlement engine for a pooled-liquidity AMM whose operations travel as notes:
//! constant-product pricing, the pool reserve ledger, the note lifecycle, and the
//! decisions behind bounded waiting and account funding.
pub mod error;
pub mod price;
pub mod ledger;
pub mod routing;
pub mod notes;
pub mod settlement;
pub mod flow;
pub mod polling;
pub mod setup;
