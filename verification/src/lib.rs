//! A fungible-token ledger with storage registration, a synchronous and an
//! asynchronous (two-phase) transfer protocol, and a deployment orchestrator
//! that provisions sub-accounts.
//!
//! The ledger maintains one conserved quantity: the total supply always equals
//! the sum of the balances of all registered accounts.

mod errors;
pub mod factory;
pub mod ledger;
pub mod metadata;
pub mod root;
pub mod token;

pub use errors::Error;
