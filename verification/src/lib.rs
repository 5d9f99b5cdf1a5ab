//! A donation ledger: an owner opens a platform, anyone may contribute to
//! it, and only the owner may withdraw what has been collected.
//!
//! Every operation is a total function on plain values. An operation that
//! fails leaves the records it was given exactly as they were.

pub mod address;
pub mod key;
pub mod laws;
pub mod processor;
pub mod records;

pub use address::{donation_address, id_text, platform_address, program_id, registry_address};
pub use key::Key;
pub use processor::{
    donate, donate_at, initialize, initialize_at, withdraw, withdraw_at, Account, Donate,
    Initialize, Signer, Withdraw,
};
pub use records::{Donation, DonationError, DonationPlatform, Donator, Donators};
