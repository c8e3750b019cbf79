//! A boundary layer through which a foreign host drives a cryptographic ledger
//! library: accounts and records are held behind generation-checked handles,
//! transactions come back as hex text, and failures are reported through a
//! consume-once error slot.

pub mod account;
pub mod c_error;
pub mod handle;
pub mod ledger;
pub mod record;
pub mod session;
pub mod transaction;
