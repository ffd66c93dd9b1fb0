//! A two-party conditional-payment escrow core: buyers register orders for a
//! fixed quantity of a designated fungible asset, and a single designated
//! release authority later resolves each order, triggering release of the
//! custodied asset to the buyer.

pub mod escrow;
pub mod laws;
pub mod order;
pub mod release;
