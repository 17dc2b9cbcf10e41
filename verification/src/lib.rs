//! A per-account retirement-savings ledger.
//!
//! Accounts accumulate a corpus balance through deposits, configure a
//! retirement time and a monthly disbursement percentage, and once the
//! retirement time has passed a payout of `floor(corpus * percent / 100)`
//! may be released. The ledger is the sole mutator of account records;
//! durable storage, the value-transfer service and the clock are external
//! collaborators that hand plain values in and out.

pub mod account;
pub mod laws;
pub mod ledger;

pub use account::Error;
pub use account::MAX_CORPUS;
pub use account::UserConfig;
pub use ledger::PensionFund;
