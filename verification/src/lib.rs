//! A custodial time-lock vault: accounts deposit a supported asset under a
//! minimum lock duration, and once the lock has elapsed (or an irreversible
//! admin-triggered emergency mode is on) they claim the funds back through a
//! cross-chain handoff message whose content digest serves as a correlation
//! handle. Every operation is all-or-nothing: a failed call leaves the vault
//! unchanged, and the aggregate locked total always equals the sum of the
//! active deposit records.

pub mod account;
pub mod asset;
pub mod errors;
pub mod events;
pub mod ledger;
pub mod message;
pub mod vault;

pub use account::AccountId;
pub use asset::AssetId;
pub use errors::VestingError;
pub use events::ClaimInitiated;
pub use events::Deposited;
pub use events::EmergencyTriggered;
pub use events::VaultEvent;
pub use events::XCMExecuted;
pub use ledger::DepositInfo;
pub use ledger::DepositLedger;
pub use message::build_xcm_message;
pub use message::calculate_xcm_hash;
pub use vault::ClaimReceipt;
pub use vault::VestingVault;
pub use vault::MIN_LOCK_DURATION;
