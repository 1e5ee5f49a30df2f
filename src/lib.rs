pub mod fees;
pub mod token;
pub mod types;
pub mod ledger;
pub mod pool;
pub mod laws;
