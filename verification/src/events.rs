use vstd::prelude::*;

use crate::account::AccountId;
use crate::asset::AssetId;

verus! {

/// A deposit was admitted: the account locked `amount` of `asset_id` until
/// `unlock_time`.
#[derive(Clone, Copy, Debug)]
pub struct Deposited {
    pub user: AccountId,
    pub amount: u128,
    pub asset_id: AssetId,
    pub unlock_time: u64,
}

/// A claim released a deposit: the cross-chain message bound for
/// `destination_parachain` carries the content digest `xcm_hash`.
#[derive(Clone, Copy, Debug)]
pub struct ClaimInitiated {
    pub user: AccountId,
    pub amount: u128,
    pub destination_parachain: u32,
    pub xcm_hash: [u8; 32],
}

/// The admin switched the vault into emergency mode at `timestamp`.
#[derive(Clone, Copy, Debug)]
pub struct EmergencyTriggered {
    pub timestamp: u64,
    pub admin: AccountId,
}

/// The outcome of a cross-chain handoff attempt for a released deposit.
#[derive(Clone, Copy, Debug)]
pub struct XCMExecuted {
    pub user: AccountId,
    pub amount: u128,
    pub destination: u32,
    pub success: bool,
}

/// One entry of the vault's append-only event log, the externally durable
/// audit trail: exactly one entry is appended per successful state
/// transition (plus the handoff record a claim produces).
#[derive(Clone, Copy, Debug)]
pub enum VaultEvent {
    Deposited(Deposited),
    ClaimInitiated(ClaimInitiated),
    EmergencyTriggered(EmergencyTriggered),
    XCMExecuted(XCMExecuted),
}

/// The mathematical form of a log entry: identities and digests as their
/// byte sequences.
#[verifier::ext_equal]
pub enum EventView {
    Deposited { user: Seq<u8>, amount: u128, asset_id: AssetId, unlock_time: u64 },
    ClaimInitiated { user: Seq<u8>, amount: u128, destination_parachain: u32, xcm_hash: Seq<u8> },
    EmergencyTriggered { timestamp: u64, admin: Seq<u8> },
    XCMExecuted { user: Seq<u8>, amount: u128, destination: u32, success: bool },
}

impl View for VaultEvent {
    type V = EventView;

    open spec fn view(&self) -> EventView {
        match self {
            VaultEvent::Deposited(e) => EventView::Deposited {
                user: e.user@,
                amount: e.amount,
                asset_id: e.asset_id,
                unlock_time: e.unlock_time,
            },
            VaultEvent::ClaimInitiated(e) => EventView::ClaimInitiated {
                user: e.user@,
                amount: e.amount,
                destination_parachain: e.destination_parachain,
                xcm_hash: e.xcm_hash@,
            },
            VaultEvent::EmergencyTriggered(e) => EventView::EmergencyTriggered {
                timestamp: e.timestamp,
                admin: e.admin@,
            },
            VaultEvent::XCMExecuted(e) => EventView::XCMExecuted {
                user: e.user@,
                amount: e.amount,
                destination: e.destination,
                success: e.success,
            },
        }
    }
}

/// The log a vector of entries denotes, entry by entry.
pub open spec fn events_view(events: Seq<VaultEvent>) -> Seq<EventView> {
    Seq::new(events.len(), |i: int| events[i]@)
}

} // verus!
