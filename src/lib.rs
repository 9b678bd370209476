//! Personal-finance ledger: account and transaction records, the financial
//! summary computed over them, and pagination of record lists.
pub mod ledger;
pub mod model;
pub mod money;
pub mod outside;
pub mod paging;
pub mod response;
pub mod services;
