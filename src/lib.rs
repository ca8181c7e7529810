pub mod amount;
pub mod naming;
pub mod metadata;
pub mod ledger;
pub mod registry;
pub mod factory;
