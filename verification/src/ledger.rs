use vstd::prelude::*;

use crate::account::AccountId;
use crate::asset::AssetId;

verus! {

/// A single account's locked deposit: the escrowed amount, the time at which
/// it unlocks, the asset it is held in and the chain the claim is bound for.
/// It is written and removed as a whole; no operation updates it in place.
#[derive(Clone, Copy, Debug)]
pub struct DepositInfo {
    pub amount: u128,
    pub unlock_timestamp: u64,
    pub asset_id: AssetId,
    pub destination_parachain: u32,
}

/// The per-account record of active deposits: at most one record per account.
/// The ledger is viewed as a map from an account's identity bytes to its
/// record, and keeps the sum of all locked amounts available in ghost form so
/// the vault can account for its aggregate total.
pub struct DepositLedger {
    entries: Vec<(AccountId, DepositInfo)>,
}

/// The map a sequence of ledger entries denotes, later entries taking
/// precedence (the ledger's own invariant keeps keys unique, so precedence
/// never matters for a well-formed ledger).
pub open spec fn entries_map(s: Seq<(AccountId, DepositInfo)>) -> Map<Seq<u8>, DepositInfo>
    decreases s.len(),
{
    if s.len() == 0 {
        Map::empty()
    } else {
        entries_map(s.drop_last()).insert(s.last().0@, s.last().1)
    }
}

/// No two entries share an account.
pub open spec fn unique_keys(s: Seq<(AccountId, DepositInfo)>) -> bool {
    forall|i: int, j: int| 0 <= i < j < s.len() ==> s[i].0@ != s[j].0@
}

/// The sum of the amounts of all entries.
pub open spec fn sum_amounts(s: Seq<(AccountId, DepositInfo)>) -> int
    decreases s.len(),
{
    if s.len() == 0 {
        0
    } else {
        sum_amounts(s.drop_last()) + s.last().1.amount
    }
}

proof fn lemma_entries_map_contains(s: Seq<(AccountId, DepositInfo)>, k: Seq<u8>)
    ensures
        entries_map(s).contains_key(k) <==> exists|i: int| 0 <= i < s.len() && s[i].0@ == k,
    decreases s.len(),
{
    if s.len() > 0 {
        lemma_entries_map_contains(s.drop_last(), k);
        if s.last().0@ == k {
            assert(s[s.len() - 1].0@ == k);
        } else if entries_map(s).contains_key(k) {
            let i = choose|i: int| 0 <= i < s.drop_last().len() && s.drop_last()[i].0@ == k;
            assert(s[i].0@ == k);
        } else {
            assert(forall|i: int|
                0 <= i < s.len() - 1 ==> s.drop_last()[i] == s[i]);
        }
    }
}

proof fn lemma_entries_map_index(s: Seq<(AccountId, DepositInfo)>, i: int)
    requires
        unique_keys(s),
        0 <= i < s.len(),
    ensures
        entries_map(s).contains_key(s[i].0@),
        entries_map(s)[s[i].0@] == s[i].1,
    decreases s.len(),
{
    if i == s.len() - 1 {
        assert(s[i] == s.last());
    } else {
        assert(forall|j: int| 0 <= j < s.len() - 1 ==> s.drop_last()[j] == s[j]);
        lemma_entries_map_index(s.drop_last(), i);
        assert(s[i].0@ != s.last().0@);
    }
}

proof fn lemma_entries_map_remove(s: Seq<(AccountId, DepositInfo)>, i: int)
    requires
        unique_keys(s),
        0 <= i < s.len(),
    ensures
        entries_map(s.remove(i)) =~= entries_map(s).remove(s[i].0@),
    decreases s.len(),
{
    let k = s[i].0@;
    if i == s.len() - 1 {
        assert(s.remove(i) =~= s.drop_last());
        lemma_entries_map_contains(s.drop_last(), k);
        assert(forall|j: int| 0 <= j < s.len() - 1 ==> s.drop_last()[j] == s[j]);
        assert(!entries_map(s.drop_last()).contains_key(k));
        assert(entries_map(s).remove(k) =~= entries_map(s.drop_last()));
    } else {
        let t = s.drop_last();
        assert(forall|j: int| 0 <= j < t.len() ==> t[j] == s[j]);
        lemma_entries_map_remove(t, i);
        assert(s.remove(i).drop_last() =~= t.remove(i));
        assert(s.remove(i).last() == s.last());
        assert(entries_map(s.remove(i)) == entries_map(t.remove(i)).insert(
            s.last().0@,
            s.last().1,
        ));
        assert(k != s.last().0@);
    }
}

proof fn lemma_sum_remove(s: Seq<(AccountId, DepositInfo)>, i: int)
    requires
        0 <= i < s.len(),
    ensures
        sum_amounts(s.remove(i)) == sum_amounts(s) - s[i].1.amount,
    decreases s.len(),
{
    if i == s.len() - 1 {
        assert(s.remove(i) =~= s.drop_last());
    } else {
        let t = s.drop_last();
        assert(forall|j: int| 0 <= j < t.len() ==> t[j] == s[j]);
        lemma_sum_remove(t, i);
        assert(s.remove(i).drop_last() =~= t.remove(i));
        assert(s.remove(i).last() == s.last());
    }
}

proof fn lemma_sum_nonneg(s: Seq<(AccountId, DepositInfo)>)
    ensures
        sum_amounts(s) >= 0,
    decreases s.len(),
{
    if s.len() > 0 {
        lemma_sum_nonneg(s.drop_last());
    }
}

proof fn lemma_amount_le_sum(s: Seq<(AccountId, DepositInfo)>, i: int)
    requires
        0 <= i < s.len(),
    ensures
        s[i].1.amount <= sum_amounts(s),
    decreases s.len(),
{
    if i == s.len() - 1 {
        lemma_sum_nonneg(s.drop_last());
    } else {
        let t = s.drop_last();
        assert(forall|j: int| 0 <= j < t.len() ==> t[j] == s[j]);
        lemma_amount_le_sum(t, i);
    }
}

impl View for DepositLedger {
    type V = Map<Seq<u8>, DepositInfo>;

    closed spec fn view(&self) -> Map<Seq<u8>, DepositInfo> {
        entries_map(self.entries@)
    }
}

impl DepositLedger {
    /// At most one record per account.
    pub closed spec fn wf(self) -> bool {
        unique_keys(self.entries@)
    }

    /// The sum of all locked amounts, as the ledger's entries carry them.
    pub closed spec fn sum_locked(self) -> int {
        sum_amounts(self.entries@)
    }

    pub fn new() -> (r: DepositLedger)
        ensures
            r.wf(),
            r@ == Map::<Seq<u8>, DepositInfo>::empty(),
            r.sum_locked() == 0,
    {
        DepositLedger { entries: Vec::new() }
    }

    fn find_index(&self, account: &AccountId) -> (r: Option<usize>)
        ensures
            match r {
                Some(i) => i < self.entries@.len() && self.entries@[i as int].0@ == account@,
                None => forall|i: int| 0 <= i < self.entries@.len()
                    ==> self.entries@[i].0@ != account@,
            },
    {
        let mut i: usize = 0;
        while i < self.entries.len()
            invariant
                i <= self.entries@.len(),
                forall|j: int| 0 <= j < i ==> self.entries@[j].0@ != account@,
            decreases self.entries@.len() - i,
        {
            if self.entries[i].0.eq_account(account) {
                return Some(i);
            }
            i += 1;
        }
        None
    }

    /// The account's record, if one is active.
    pub fn get(&self, account: &AccountId) -> (r: Option<DepositInfo>)
        requires
            self.wf(),
        ensures
            match r {
                Some(info) => self@.contains_key(account@) && info == self@[account@],
                None => !self@.contains_key(account@),
            },
    {
        proof {
            lemma_entries_map_contains(self.entries@, account@);
        }
        match self.find_index(account) {
            Some(i) => {
                proof {
                    lemma_entries_map_index(self.entries@, i as int);
                }
                Some(self.entries[i].1)
            },
            None => None,
        }
    }

    /// Records a fresh deposit for an account that has none.
    pub fn insert(&mut self, account: AccountId, info: DepositInfo)
        requires
            old(self).wf(),
            !old(self)@.contains_key(account@),
        ensures
            final(self).wf(),
            final(self)@ == old(self)@.insert(account@, info),
            final(self).sum_locked() == old(self).sum_locked() + info.amount,
    {
        proof {
            lemma_entries_map_contains(self.entries@, account@);
        }
        let ghost prev = self.entries@;
        self.entries.push((account, info));
        proof {
            assert(self.entries@.drop_last() =~= prev);
            assert(forall|j: int| 0 <= j < prev.len() ==> prev[j] == self.entries@[j]);
        }
    }

    /// Destroys an account's record.
    pub fn remove(&mut self, account: &AccountId)
        requires
            old(self).wf(),
            old(self)@.contains_key(account@),
        ensures
            final(self).wf(),
            final(self)@ == old(self)@.remove(account@),
            final(self).sum_locked() == old(self).sum_locked() - old(self)@[account@].amount,
    {
        proof {
            lemma_entries_map_contains(self.entries@, account@);
        }
        let found = self.find_index(account);
        match found {
            Some(i) => {
                proof {
                    lemma_entries_map_index(self.entries@, i as int);
                    lemma_entries_map_remove(self.entries@, i as int);
                    lemma_sum_remove(self.entries@, i as int);
                    assert(forall|a: int, b: int|
                        0 <= a < b < self.entries@.remove(i as int).len() ==> #[trigger] self
                            .entries@
                            .remove(i as int)[a].0@ != #[trigger] self.entries@.remove(
                            i as int,
                        )[b].0@) by {
                        assert(forall|a: int|
                            0 <= a < self.entries@.remove(i as int).len()
                                ==> #[trigger] self.entries@.remove(i as int)[a] == if a < i {
                                self.entries@[a]
                            } else {
                                self.entries@[a + 1]
                            });
                    }
                }
                self.entries.remove(i);
            },
            None => {
                proof {
                    assert(false);
                }
            },
        }
    }

    /// Any active record's amount is covered by the ledger's locked sum.
    pub proof fn lemma_contained_amount_le_sum(&self, k: Seq<u8>)
        requires
            self.wf(),
            self@.contains_key(k),
        ensures
            self@[k].amount <= self.sum_locked(),
            self.sum_locked() >= 0,
    {
        lemma_entries_map_contains(self.entries@, k);
        lemma_sum_nonneg(self.entries@);
        let i = choose|i: int| 0 <= i < self.entries@.len() && self.entries@[i].0@ == k;
        lemma_entries_map_index(self.entries@, i);
        lemma_amount_le_sum(self.entries@, i);
    }
}

} // verus!
