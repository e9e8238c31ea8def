//! A custody ledger: funds placed under program custody, recorded per owner as a sequence
//! of independently withdrawable lock entries; a single-record variant with a process-wide
//! total; and the fixed 56-byte layout in which that record is stored.

pub mod conservation;
pub mod error;
pub mod init_lock_account;
pub mod instruction;
pub mod ledger;
pub mod lock_data;
pub mod lock_tokens;
pub mod processor;
pub mod state;
pub mod unlock_tokens;
