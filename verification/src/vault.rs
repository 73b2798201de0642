use vstd::prelude::*;

use crate::account::AccountId;
use crate::asset::AssetId;
use crate::errors::VestingError;
use crate::events::ClaimInitiated;
use crate::events::Deposited;
use crate::events::EmergencyTriggered;
use crate::events::EventView;
use crate::events::VaultEvent;
use crate::events::XCMExecuted;
use crate::events::events_view;
use crate::ledger::DepositInfo;
use crate::ledger::DepositLedger;
use crate::message::build_xcm_message;
use crate::message::calculate_xcm_hash;
use crate::message::xcm_hash_spec;
use crate::message::xcm_message_spec;

verus! {

/// The shortest lock a deposit may ask for, in the environment's time unit.
pub const MIN_LOCK_DURATION: u64 = 60000;

/// The mathematical state of a vault: the deposit records keyed by the
/// account's identity bytes, the scalar flags and counters, and the event
/// log.
#[verifier::ext_equal]
pub struct VaultView {
    pub deposits: Map<Seq<u8>, DepositInfo>,
    pub emergency_mode: bool,
    pub admin: Seq<u8>,
    pub total_locked: u128,
    pub supported_assets: Seq<AssetId>,
    pub events: Seq<EventView>,
}

/// Whether a claim by `account` at time `now` is admissible in state `v`:
/// the account must hold a record, and either its unlock time has been
/// reached or emergency mode is on.
pub open spec fn claim_allowed(v: VaultView, account: Seq<u8>, now: u64) -> bool {
    v.deposits.contains_key(account) && (now >= v.deposits[account].unlock_timestamp
        || v.emergency_mode)
}

/// The two built-in asset classes every vault is constructed to custody.
pub open spec fn builtin_assets() -> Seq<AssetId> {
    seq![AssetId(1u32), AssetId(2u32)]
}

/// The caller's receipt for a successful claim: the content digest of the
/// cross-chain message, the correlation handle for off-chain reconciliation
/// with the relay.
#[derive(Clone, Copy, Debug)]
pub struct ClaimReceipt {
    pub xcm_hash: [u8; 32],
}

/// The custodial time-lock vault. The execution environment supplies the
/// caller's identity and the current logical timestamp with each call; the
/// vault trusts both and enforces every invariant itself: the aggregate
/// `total_locked` always equals the sum of the active records, a record is
/// released at most once, and emergency mode, once on, is never reset.
pub struct VestingVault {
    pub deposits: DepositLedger,
    pub emergency_mode: bool,
    pub admin: AccountId,
    pub total_locked: u128,
    pub supported_assets: Vec<AssetId>,
    pub events: Vec<VaultEvent>,
}

impl View for VestingVault {
    type V = VaultView;

    open spec fn view(&self) -> VaultView {
        VaultView {
            deposits: self.deposits@,
            emergency_mode: self.emergency_mode,
            admin: self.admin@,
            total_locked: self.total_locked,
            supported_assets: self.supported_assets@,
            events: events_view(self.events@),
        }
    }
}

impl VestingVault {
    /// The vault's invariant: at most one record per account, every record's
    /// amount positive, the aggregate total exactly the sum of the records'
    /// amounts, and the asset registry as construction fixed it.
    pub open spec fn wf(self) -> bool {
        &&& self.deposits.wf()
        &&& self.total_locked as int == self.deposits.sum_locked()
        &&& (forall|k: Seq<u8>| #[trigger]
            self@.deposits.contains_key(k) ==> self@.deposits[k].amount > 0)
        &&& self.supported_assets@ == builtin_assets()
    }

    /// Constructs a vault administered by `admin`: no deposits, nothing
    /// locked, emergency mode off, and the two built-in asset classes
    /// supported.
    pub fn new(admin: AccountId) -> (vault: VestingVault)
        ensures
            vault.wf(),
            vault@.deposits == Map::<Seq<u8>, DepositInfo>::empty(),
            vault@.emergency_mode == false,
            vault@.admin == admin@,
            vault@.total_locked == 0,
            vault@.supported_assets == builtin_assets(),
            vault@.events == Seq::<EventView>::empty(),
    {
        let mut supported_assets: Vec<AssetId> = Vec::new();
        supported_assets.push(AssetId(1));
        supported_assets.push(AssetId(2));
        let vault = VestingVault {
            deposits: DepositLedger::new(),
            emergency_mode: false,
            admin,
            total_locked: 0,
            supported_assets,
            events: Vec::new(),
        };
        proof {
            assert(vault.supported_assets@ =~= builtin_assets());
            assert(events_view(vault.events@) =~= Seq::<EventView>::empty());
        }
        vault
    }

    /// Membership in the vault's asset registry.
    pub fn is_asset_supported(&self, asset_id: AssetId) -> (r: bool)
        ensures
            r == self@.supported_assets.contains(asset_id),
    {
        let mut i: usize = 0;
        while i < self.supported_assets.len()
            invariant
                i <= self.supported_assets@.len(),
                forall|j: int| 0 <= j < i ==> self.supported_assets@[j] != asset_id,
            decreases self.supported_assets@.len() - i,
        {
            if self.supported_assets[i].0 == asset_id.0 {
                assert(self.supported_assets@[i as int] == asset_id);
                return true;
            }
            i += 1;
        }
        assert(!self@.supported_assets.contains(asset_id));
        false
    }

    /// Stands for the asset-transfer precompile that escrows the deposited
    /// value atomically with the call. This design simulates the precompile,
    /// and the simulated transfer always succeeds; were it to fail, the
    /// deposit would abort with its error and no state change.
    fn call_assets_precompile_transfer(
        &self,
        from: &AccountId,
        amount: u128,
        asset_id: AssetId,
    ) -> (r: Result<(), VestingError>)
        ensures
            r is Ok,
    {
        Ok(())
    }

    /// Admits a deposit: `caller` locks `amount` of `asset_id` until
    /// `now + lock_secs`, bound for `destination_parachain`. The checks run
    /// in a fixed order — asset support, minimum lock, positive amount — and
    /// the first failure returns its error with no state change. On success
    /// the record is inserted, the aggregate total grows by exactly `amount`,
    /// and one `Deposited` event is appended. An account with an active
    /// record may not deposit again while it stands.
    pub fn deposit_with_asset(
        &mut self,
        caller: AccountId,
        now: u64,
        asset_id: AssetId,
        amount: u128,
        lock_secs: u64,
        destination_parachain: u32,
    ) -> (r: Result<(), VestingError>)
        requires
            old(self).wf(),
            !old(self)@.deposits.contains_key(caller@),
            (old(self)@.supported_assets.contains(asset_id) && lock_secs >= MIN_LOCK_DURATION
                && amount > 0) ==> now + lock_secs <= u64::MAX && old(self)@.total_locked + amount
                <= u128::MAX,
        ensures
            final(self).wf(),
            r is Ok <==> (old(self)@.supported_assets.contains(asset_id) && lock_secs
                >= MIN_LOCK_DURATION && amount > 0),
            (r == Err::<(), VestingError>(VestingError::AssetNotSupported)) <==> !old(
                self,
            )@.supported_assets.contains(asset_id),
            (r == Err::<(), VestingError>(VestingError::LockTooShort)) <==> (old(
                self,
            )@.supported_assets.contains(asset_id) && lock_secs < MIN_LOCK_DURATION),
            (r == Err::<(), VestingError>(VestingError::InvalidAmount)) <==> (old(
                self,
            )@.supported_assets.contains(asset_id) && lock_secs >= MIN_LOCK_DURATION && amount
                == 0),
            r is Err ==> final(self)@ == old(self)@,
            r is Ok ==> final(self)@.deposits == old(self)@.deposits.insert(
                caller@,
                (DepositInfo {
                    amount,
                    unlock_timestamp: (now + lock_secs) as u64,
                    asset_id,
                    destination_parachain,
                }),
            ),
            r is Ok ==> final(self)@.total_locked == old(self)@.total_locked + amount,
            r is Ok ==> final(self)@.events == old(self)@.events.push(
                (EventView::Deposited {
                    user: caller@,
                    amount,
                    asset_id,
                    unlock_time: (now + lock_secs) as u64,
                }),
            ),
            final(self)@.emergency_mode == old(self)@.emergency_mode,
            final(self)@.admin == old(self)@.admin,
            final(self)@.supported_assets == old(self)@.supported_assets,
    {
        if !self.is_asset_supported(asset_id) {
            return Err(VestingError::AssetNotSupported);
        }
        if lock_secs < MIN_LOCK_DURATION {
            return Err(VestingError::LockTooShort);
        }
        if amount == 0 {
            return Err(VestingError::InvalidAmount);
        }
        match self.call_assets_precompile_transfer(&caller, amount, asset_id) {
            Ok(()) => {},
            Err(e) => {
                return Err(e);
            },
        }
        let unlock_time = now + lock_secs;
        let info = DepositInfo { amount, unlock_timestamp: unlock_time, asset_id, destination_parachain };
        let ghost prev_events = events_view(self.events@);
        self.deposits.insert(caller, info);
        self.total_locked = self.total_locked + amount;
        self.events.push(VaultEvent::Deposited(Deposited { user: caller, amount, asset_id, unlock_time }));
        proof {
            assert(events_view(self.events@) =~= prev_events.push(
                EventView::Deposited { user: caller@, amount, asset_id, unlock_time },
            ));
            assert forall|k: Seq<u8>| #[trigger]
                self@.deposits.contains_key(k) implies self@.deposits[k].amount > 0 by {
                if k != caller@ {
                    assert(old(self)@.deposits.contains_key(k));
                }
            }
        }
        Ok(())
    }

    /// Performs the cross-chain handoff for a release: builds the claim
    /// message, derives its content digest and records the execution attempt
    /// in the event log. Delivery itself is the external relay's concern; the
    /// vault only produces the verifiable intent record.
    fn execute_xcm_transfer(
        &mut self,
        beneficiary: AccountId,
        amount: u128,
        destination_parachain: u32,
        asset_id: AssetId,
    ) -> (r: Result<[u8; 32], VestingError>)
        ensures
            r is Ok,
            r is Ok ==> r->Ok_0@ == xcm_hash_spec(
                xcm_message_spec(beneficiary@, amount, destination_parachain, asset_id),
            ),
            final(self).deposits == old(self).deposits,
            final(self).emergency_mode == old(self).emergency_mode,
            final(self).admin == old(self).admin,
            final(self).total_locked == old(self).total_locked,
            final(self).supported_assets == old(self).supported_assets,
            final(self)@.events == old(self)@.events.push(
                (EventView::XCMExecuted {
                    user: beneficiary@,
                    amount,
                    destination: destination_parachain,
                    success: true,
                }),
            ),
    {
        let message = build_xcm_message(&beneficiary, amount, destination_parachain, asset_id);
        let xcm_hash = calculate_xcm_hash(message.as_slice());
        let ghost prev_events = events_view(self.events@);
        self.events.push(VaultEvent::XCMExecuted(XCMExecuted {
            user: beneficiary,
            amount,
            destination: destination_parachain,
            success: true,
        }));
        proof {
            assert(events_view(self.events@) =~= prev_events.push(
                EventView::XCMExecuted {
                    user: beneficiary@,
                    amount,
                    destination: destination_parachain,
                    success: true,
                },
            ));
        }
        Ok(xcm_hash)
    }

    /// Releases the caller's deposit. Absence of a record fails with
    /// `NoDepositFound`; a record still inside its lock fails with
    /// `TokensStillLocked` unless emergency mode is on. On success the record
    /// is destroyed before anything externally observable happens, the
    /// aggregate total shrinks by its amount, the handoff and the claim are
    /// logged in that order, and the receipt carries the message digest.
    /// A failed claim leaves the record intact and claimable later.
    pub fn claim_cross_chain(&mut self, caller: AccountId, now: u64) -> (r: Result<
        ClaimReceipt,
        VestingError,
    >)
        requires
            old(self).wf(),
        ensures
            final(self).wf(),
            r is Ok <==> claim_allowed(old(self)@, caller@, now),
            (r == Err::<ClaimReceipt, VestingError>(VestingError::NoDepositFound)) <==> !old(
                self,
            )@.deposits.contains_key(caller@),
            (r == Err::<ClaimReceipt, VestingError>(VestingError::TokensStillLocked)) <==> (old(
                self,
            )@.deposits.contains_key(caller@) && !claim_allowed(old(self)@, caller@, now)),
            r is Err ==> final(self)@ == old(self)@,
            r is Ok ==> ({
                let record = old(self)@.deposits[caller@];
                let digest = xcm_hash_spec(
                    xcm_message_spec(
                        caller@,
                        record.amount,
                        record.destination_parachain,
                        record.asset_id,
                    ),
                );
                &&& final(self)@.deposits == old(self)@.deposits.remove(caller@)
                &&& final(self)@.total_locked == old(self)@.total_locked - record.amount
                &&& r->Ok_0.xcm_hash@ == digest
                &&& final(self)@.events == old(self)@.events.push(
                    (EventView::XCMExecuted {
                        user: caller@,
                        amount: record.amount,
                        destination: record.destination_parachain,
                        success: true,
                    }),
                ).push(
                    (EventView::ClaimInitiated {
                        user: caller@,
                        amount: record.amount,
                        destination_parachain: record.destination_parachain,
                        xcm_hash: digest,
                    }),
                )
            }),
            final(self)@.emergency_mode == old(self)@.emergency_mode,
            final(self)@.admin == old(self)@.admin,
            final(self)@.supported_assets == old(self)@.supported_assets,
    {
        let info = match self.deposits.get(&caller) {
            Some(info) => info,
            None => {
                return Err(VestingError::NoDepositFound);
            },
        };
        if now < info.unlock_timestamp && !self.emergency_mode {
            return Err(VestingError::TokensStillLocked);
        }
        let xcm_hash = match self.execute_xcm_transfer(
            caller,
            info.amount,
            info.destination_parachain,
            info.asset_id,
        ) {
            Ok(h) => h,
            Err(e) => {
                return Err(e);
            },
        };
        proof {
            self.deposits.lemma_contained_amount_le_sum(caller@);
        }
        self.total_locked = self.total_locked - info.amount;
        self.deposits.remove(&caller);
        let ghost prev_events = events_view(self.events@);
        self.events.push(VaultEvent::ClaimInitiated(ClaimInitiated {
            user: caller,
            amount: info.amount,
            destination_parachain: info.destination_parachain,
            xcm_hash,
        }));
        proof {
            assert(events_view(self.events@) =~= prev_events.push(
                EventView::ClaimInitiated {
                    user: caller@,
                    amount: info.amount,
                    destination_parachain: info.destination_parachain,
                    xcm_hash: xcm_hash@,
                },
            ));
            assert forall|k: Seq<u8>| #[trigger]
                self@.deposits.contains_key(k) implies self@.deposits[k].amount > 0 by {
                assert(old(self)@.deposits.contains_key(k));
            }
        }
        Ok(ClaimReceipt { xcm_hash })
    }

    /// Switches the vault into emergency mode, relaxing every time-lock, now
    /// and for good: no operation ever resets the mode. Only the admin may
    /// trigger it; any other caller gets `UnauthorizedAccess` and the state
    /// is untouched. Triggering it again succeeds and logs another event.
    pub fn emergency_unlock(&mut self, caller: AccountId, now: u64) -> (r: Result<
        (),
        VestingError,
    >)
        requires
            old(self).wf(),
        ensures
            final(self).wf(),
            r is Ok <==> caller@ == old(self)@.admin,
            r is Err ==> r == Err::<(), VestingError>(VestingError::UnauthorizedAccess)
                && final(self)@ == old(self)@,
            r is Ok ==> final(self)@.emergency_mode,
            r is Ok ==> final(self)@.events == old(self)@.events.push(
                (EventView::EmergencyTriggered { timestamp: now, admin: old(self)@.admin }),
            ),
            old(self)@.emergency_mode ==> final(self)@.emergency_mode,
            final(self)@.deposits == old(self)@.deposits,
            final(self)@.admin == old(self)@.admin,
            final(self)@.total_locked == old(self)@.total_locked,
            final(self)@.supported_assets == old(self)@.supported_assets,
    {
        if !caller.eq_account(&self.admin) {
            return Err(VestingError::UnauthorizedAccess);
        }
        self.emergency_mode = true;
        let admin = self.admin;
        let ghost prev_events = events_view(self.events@);
        self.events.push(VaultEvent::EmergencyTriggered(EmergencyTriggered {
            timestamp: now,
            admin,
        }));
        proof {
            assert(events_view(self.events@) =~= prev_events.push(
                EventView::EmergencyTriggered { timestamp: now, admin: admin@ },
            ));
            assert forall|k: Seq<u8>| #[trigger]
                self@.deposits.contains_key(k) implies self@.deposits[k].amount > 0 by {
                assert(old(self)@.deposits.contains_key(k));
            }
        }
        Ok(())
    }

    /// The caller's active deposit record, if any. Read-only.
    pub fn get_deposit_info(&self, account: AccountId) -> (r: Option<DepositInfo>)
        requires
            self.wf(),
        ensures
            match r {
                Some(info) => self@.deposits.contains_key(account@) && info
                    == self@.deposits[account@],
                None => !self@.deposits.contains_key(account@),
            },
    {
        self.deposits.get(&account)
    }

    /// The aggregate locked amount. Read-only.
    pub fn get_total_locked(&self) -> (r: u128)
        ensures
            r == self@.total_locked,
    {
        self.total_locked
    }

    /// Whether emergency mode is on. Read-only.
    pub fn is_emergency_mode(&self) -> (r: bool)
        ensures
            r == self@.emergency_mode,
    {
        self.emergency_mode
    }

    /// The asset registry's contents, in registration order. Read-only.
    pub fn get_supported_assets(&self) -> (r: Vec<AssetId>)
        ensures
            r@ == self@.supported_assets,
    {
        let mut out: Vec<AssetId> = Vec::new();
        let mut i: usize = 0;
        while i < self.supported_assets.len()
            invariant
                i <= self.supported_assets@.len(),
                out@ == self.supported_assets@.subrange(0, i as int),
            decreases self.supported_assets@.len() - i,
        {
            out.push(self.supported_assets[i]);
            i += 1;
            assert(out@ =~= self.supported_assets@.subrange(0, i as int));
        }
        assert(out@ =~= self.supported_assets@);
        out
    }
}

/// At-most-once release: a successful claim removes the account's record, so
/// afterwards no record stands for that account and no further claim by it
/// can be admitted.
pub proof fn lemma_at_most_once_release(
    pre: VaultView,
    post: VaultView,
    account: Seq<u8>,
    now: u64,
)
    requires
        post.deposits == pre.deposits.remove(account),
    ensures
        !post.deposits.contains_key(account),
        !claim_allowed(post, account, now),
{
}

/// Emergency mode overrides the time-lock, and does so monotonically: in any
/// state with the mode on, every account with an active record may claim at
/// every time.
pub proof fn lemma_emergency_overrides_time_lock(v: VaultView, account: Seq<u8>, now: u64)
    requires
        v.emergency_mode,
        v.deposits.contains_key(account),
    ensures
        claim_allowed(v, account, now),
{
}

} // verus!
