//! A ledger of client accounts driven by deposit, withdrawal, dispute,
//! resolve and chargeback records, with exact fixed-point amounts.
pub mod ledger;
pub mod model;
pub mod transaction;
