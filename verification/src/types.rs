//! The values that travel: ordering keys, account states and account records.

pub mod account;
pub mod account_state;
pub mod slot_identifier;
