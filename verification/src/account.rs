//! Per-user state: a fixed-size ledger of per-bank balances (held as
//! shares, never raw amounts), account bitfield flags, and the account
//! record that owns them. A balance never holds a non-negligible amount on
//! both sides at once; that invariant is stated here and preserved by
//! every mutation of the ledger.

use vstd::prelude::*;
use crate::bank::BalanceSide;
use crate::constants::{
    ACCOUNT_DISABLED, ACCOUNT_TRANSFER_AUTHORITY_ALLOWED, ASSET_TAG_DEFAULT, ASSET_TAG_SOL,
    ASSET_TAG_STAKED, EMPTY_BALANCE_THRESHOLD_BITS, MAX_LENDING_ACCOUNT_BALANCES,
};
use crate::errors::SurroundfiError;
use crate::health_cache::HealthCache;
use crate::i80f48::{fits_i128, I80F48, FRAC_SCALE};

verus! {

/// One slot of an account's ledger: the position this user holds in one
/// bank, as shares on the asset or the liability side.
#[derive(Clone, Copy, Debug, PartialEq, Eq, Structural)]
pub struct Balance {
    /// Nonzero while the slot is in use.
    pub active: u8,
    /// Identity of the bank this slot is bound to.
    pub bank_pk: u64,
    /// The bank's asset tag, snapshotted when the slot was created and
    /// immutable afterwards.
    pub bank_asset_tag: u8,
    /// Shares held on the deposit side.
    pub asset_shares: I80F48,
    /// Shares owed on the borrow side.
    pub liability_shares: I80F48,
    /// Emissions earned and not yet withdrawn.
    pub emissions_outstanding: I80F48,
    /// Time of the last emissions settlement.
    pub last_update: u64,
}

/// Whether a balance is negligible on the given side.
pub open spec fn spec_is_empty(b: Balance, side: BalanceSide) -> bool {
    match side {
        BalanceSide::Assets => b.asset_shares.bits < EMPTY_BALANCE_THRESHOLD_BITS,
        BalanceSide::Liabilities => b.liability_shares.bits < EMPTY_BALANCE_THRESHOLD_BITS,
    }
}

/// The core ledger invariant: a balance never holds non-negligible shares
/// on both sides at once.
pub open spec fn spec_sides_disjoint(b: Balance) -> bool {
    b.asset_shares.bits < EMPTY_BALANCE_THRESHOLD_BITS || b.liability_shares.bits
        < EMPTY_BALANCE_THRESHOLD_BITS
}

/// The side a balance is on: the liability side wins where its shares are
/// non-negligible, then the asset side, else neither.
pub open spec fn spec_get_side(b: Balance) -> Option<BalanceSide> {
    if b.liability_shares.bits >= EMPTY_BALANCE_THRESHOLD_BITS {
        Some(BalanceSide::Liabilities)
    } else if b.asset_shares.bits >= EMPTY_BALANCE_THRESHOLD_BITS {
        Some(BalanceSide::Assets)
    } else {
        None
    }
}

impl Balance {
    /// Whether this slot is in use.
    pub fn is_active(&self) -> (r: bool)
        ensures
            r == (self.active != 0),
    {
        self.active != 0
    }

    /// Mark the slot in use or free.
    pub fn set_active(&mut self, value: bool)
        ensures
            *final(self) == (Balance { active: if value { 1u8 } else { 0u8 }, ..*old(self) }),
    {
        self.active = if value {
            1
        } else {
            0
        };
    }

    /// Whether the given side of this balance is negligible, tolerating the
    /// rounding dust deposits and withdrawals leave behind.
    pub fn is_empty(&self, side: BalanceSide) -> (r: bool)
        ensures
            r == spec_is_empty(*self, side),
    {
        let shares = match side {
            BalanceSide::Assets => self.asset_shares,
            BalanceSide::Liabilities => self.liability_shares,
        };
        shares.lt(I80F48 { bits: EMPTY_BALANCE_THRESHOLD_BITS })
    }

    /// Add a (signed) delta to the asset shares; on overflow the balance is
    /// unchanged.
    pub fn change_asset_shares(&mut self, delta: I80F48) -> (r: Result<(), SurroundfiError>)
        ensures
            fits_i128(old(self).asset_shares.bits + delta.bits) ==> r == Ok::<(), SurroundfiError>(
                (),
            ) && *final(self) == (Balance {
                asset_shares: I80F48 { bits: (old(self).asset_shares.bits + delta.bits) as i128 },
                ..*old(self)
            }),
            !fits_i128(old(self).asset_shares.bits + delta.bits) ==> r == Err::<
                (),
                SurroundfiError,
            >(SurroundfiError::MathError) && *final(self) == *old(self),
    {
        match self.asset_shares.checked_add(delta) {
            Some(v) => {
                self.asset_shares = v;
                Ok(())
            },
            None => Err(SurroundfiError::MathError),
        }
    }

    /// Add a (signed) delta to the liability shares; on overflow the
    /// balance is unchanged.
    pub fn change_liability_shares(&mut self, delta: I80F48) -> (r: Result<(), SurroundfiError>)
        ensures
            fits_i128(old(self).liability_shares.bits + delta.bits) ==> r == Ok::<
                (),
                SurroundfiError,
            >(()) && *final(self) == (Balance {
                liability_shares: I80F48 {
                    bits: (old(self).liability_shares.bits + delta.bits) as i128,
                },
                ..*old(self)
            }),
            !fits_i128(old(self).liability_shares.bits + delta.bits) ==> r == Err::<
                (),
                SurroundfiError,
            >(SurroundfiError::MathError) && *final(self) == *old(self),
    {
        match self.liability_shares.checked_add(delta) {
            Some(v) => {
                self.liability_shares = v;
                Ok(())
            },
            None => Err(SurroundfiError::MathError),
        }
    }

    /// Free the slot. Refused while a whole unit or more of emissions is
    /// still unclaimed; then the balance is unchanged.
    pub fn close(&mut self) -> (r: Result<(), SurroundfiError>)
        ensures
            old(self).emissions_outstanding.bits >= FRAC_SCALE ==> r == Err::<
                (),
                SurroundfiError,
            >(SurroundfiError::CannotCloseOutstandingEmissions) && *final(self) == *old(self),
            old(self).emissions_outstanding.bits < FRAC_SCALE ==> r == Ok::<(), SurroundfiError>(())
                && *final(self) == spec_empty_deactivated(),
    {
        if self.emissions_outstanding.ge(I80F48::one()) {
            return Err(SurroundfiError::CannotCloseOutstandingEmissions);
        }
        *self = Balance::empty_deactivated();
        Ok(())
    }

    /// The side this balance is on, or `None` for a logically empty slot;
    /// the liability side takes precedence.
    pub fn get_side(&self) -> (r: Option<BalanceSide>)
        ensures
            r == spec_get_side(*self),
    {
        if self.liability_shares.ge(I80F48 { bits: EMPTY_BALANCE_THRESHOLD_BITS }) {
            Some(BalanceSide::Liabilities)
        } else if self.asset_shares.ge(I80F48 { bits: EMPTY_BALANCE_THRESHOLD_BITS }) {
            Some(BalanceSide::Assets)
        } else {
            None
        }
    }

    /// A freed, zeroed slot.
    pub fn empty_deactivated() -> (r: Balance)
        ensures
            r == spec_empty_deactivated(),
    {
        Balance {
            active: 0,
            bank_pk: 0,
            bank_asset_tag: ASSET_TAG_DEFAULT,
            asset_shares: I80F48::zero(),
            liability_shares: I80F48::zero(),
            emissions_outstanding: I80F48::zero(),
            last_update: 0,
        }
    }
}

/// The freed, zeroed slot `empty_deactivated` yields.
pub open spec fn spec_empty_deactivated() -> Balance {
    Balance {
        active: 0,
        bank_pk: 0,
        bank_asset_tag: ASSET_TAG_DEFAULT,
        asset_shares: I80F48 { bits: 0 },
        liability_shares: I80F48 { bits: 0 },
        emissions_outstanding: I80F48 { bits: 0 },
        last_update: 0,
    }
}

/// The first slot, from `i` on, holding an active balance bound to the
/// given bank.
pub open spec fn spec_balance_index_from(balances: Seq<Balance>, bank_pk: u64, i: int) -> Option<
    int,
>
    decreases balances.len() - i,
{
    if i < 0 || i >= balances.len() {
        None
    } else if balances[i].active != 0 && balances[i].bank_pk == bank_pk {
        Some(i)
    } else {
        spec_balance_index_from(balances, bank_pk, i + 1)
    }
}

/// The slot holding the account's active balance for the given bank.
pub open spec fn spec_balance_index(balances: Seq<Balance>, bank_pk: u64) -> Option<int> {
    spec_balance_index_from(balances, bank_pk, 0)
}

/// The first free slot, from `i` on.
pub open spec fn spec_first_empty_from(balances: Seq<Balance>, i: int) -> Option<int>
    decreases balances.len() - i,
{
    if i < 0 || i >= balances.len() {
        None
    } else if balances[i].active == 0 {
        Some(i)
    } else {
        spec_first_empty_from(balances, i + 1)
    }
}

/// The first free slot of a ledger.
pub open spec fn spec_first_empty(balances: Seq<Balance>) -> Option<int> {
    spec_first_empty_from(balances, 0)
}

/// Searching from the front equals searching from any point the search
/// already passed without a hit.
proof fn lemma_balance_index_from(balances: Seq<Balance>, bank_pk: u64, k: int)
    requires
        0 <= k <= balances.len(),
        forall|j: int|
            0 <= j < k ==> !((#[trigger] balances[j]).active != 0 && balances[j].bank_pk
                == bank_pk),
    ensures
        spec_balance_index(balances, bank_pk) == spec_balance_index_from(balances, bank_pk, k),
    decreases k,
{
    if k > 0 {
        lemma_balance_index_from(balances, bank_pk, k - 1);
    }
}

/// The free-slot search from the front equals the search from any point
/// it already passed without a hit.
proof fn lemma_first_empty_from(balances: Seq<Balance>, k: int)
    requires
        0 <= k <= balances.len(),
        forall|j: int| 0 <= j < k ==> (#[trigger] balances[j]).active != 0,
    ensures
        spec_first_empty(balances) == spec_first_empty_from(balances, k),
    decreases k,
{
    if k > 0 {
        lemma_first_empty_from(balances, k - 1);
    }
}

/// The fixed-size ledger of one account.
#[derive(Clone, Debug)]
pub struct LendingAccount {
    /// Exactly sixteen slots, active or free.
    pub balances: Vec<Balance>,
}

impl LendingAccount {
    /// Structural well-formedness: the ledger has its full complement of
    /// slots and every slot satisfies the one-side invariant.
    pub open spec fn wf(self) -> bool {
        &&& self.balances@.len() == MAX_LENDING_ACCOUNT_BALANCES
        &&& forall|i: int|
            0 <= i < self.balances@.len() ==> spec_sides_disjoint(#[trigger] self.balances@[i])
    }

    /// A ledger of sixteen free slots.
    pub fn new() -> (r: LendingAccount)
        ensures
            r.wf(),
            forall|i: int|
                0 <= i < r.balances@.len() ==> #[trigger] r.balances@[i]
                    == spec_empty_deactivated(),
    {
        let mut balances: Vec<Balance> = Vec::new();
        let mut i: usize = 0;
        while i < MAX_LENDING_ACCOUNT_BALANCES
            invariant
                i <= MAX_LENDING_ACCOUNT_BALANCES,
                balances@.len() == i,
                forall|j: int|
                    0 <= j < i ==> #[trigger] balances@[j] == spec_empty_deactivated(),
            decreases MAX_LENDING_ACCOUNT_BALANCES - i,
        {
            balances.push(Balance::empty_deactivated());
            i = i + 1;
        }
        LendingAccount { balances }
    }

    /// The first free slot, or `None` when all sixteen are in use.
    pub fn get_first_empty_balance(&self) -> (r: Option<usize>)
        ensures
            match r {
                Some(i) => spec_first_empty(self.balances@) == Some(i as int) && i
                    < self.balances@.len() && self.balances@[i as int].active == 0,
                None => spec_first_empty(self.balances@) is None,
            },
    {
        let mut i: usize = 0;
        while i < self.balances.len()
            invariant
                i <= self.balances@.len(),
                forall|j: int| 0 <= j < i ==> (#[trigger] self.balances@[j]).active != 0,
            decreases self.balances@.len() - i,
        {
            if !self.balances[i].is_active() {
                proof {
                    lemma_first_empty_from(self.balances@, i as int);
                }
                return Some(i);
            }
            i = i + 1;
        }
        proof {
            lemma_first_empty_from(self.balances@, self.balances@.len() as int);
        }
        None
    }

    /// The slot index of the active balance bound to the given bank, or
    /// `None` when the account holds no position there.
    pub fn get_balance(&self, bank_pk: u64) -> (r: Option<usize>)
        ensures
            match r {
                Some(i) => spec_balance_index(self.balances@, bank_pk) == Some(i as int) && i
                    < self.balances@.len() && self.balances@[i as int].active != 0
                    && self.balances@[i as int].bank_pk == bank_pk,
                None => spec_balance_index(self.balances@, bank_pk) is None,
            },
    {
        let mut i: usize = 0;
        while i < self.balances.len()
            invariant
                i <= self.balances@.len(),
                forall|j: int|
                    0 <= j < i ==> !((#[trigger] self.balances@[j]).active != 0
                        && self.balances@[j].bank_pk == bank_pk),
            decreases self.balances@.len() - i,
        {
            if self.balances[i].is_active() && self.balances[i].bank_pk == bank_pk {
                proof {
                    lemma_balance_index_from(self.balances@, bank_pk, i as int);
                }
                return Some(i);
            }
            i = i + 1;
        }
        proof {
            lemma_balance_index_from(self.balances@, bank_pk, self.balances@.len() as int);
        }
        None
    }

    /// The active balances, in ledger order.
    pub fn get_active_balances_iter(&self) -> (r: Vec<Balance>)
        ensures
            r@ == self.balances@.filter(|b: Balance| b.active != 0),
    {
        let mut result: Vec<Balance> = Vec::new();
        let mut i: usize = 0;
        while i < self.balances.len()
            invariant
                i <= self.balances@.len(),
                result@ == self.balances@.take(i as int).filter(|b: Balance| b.active != 0),
            decreases self.balances@.len() - i,
        {
            proof {
                reveal(Seq::filter);
                assert(self.balances@.take(i + 1).drop_last() == self.balances@.take(i as int));
                assert(self.balances@.take(i + 1).last() == self.balances@[i as int]);
            }
            if self.balances[i].is_active() {
                result.push(self.balances[i]);
            }
            i = i + 1;
        }
        proof {
            assert(self.balances@.take(self.balances@.len() as int) == self.balances@);
        }
        result
    }
}

/// How many linked accounts a risk check needs for one balance: four for
/// the staked tag (bank, oracle, mint, pool), two otherwise; `None` for an
/// unknown tag.
pub open spec fn spec_accounts_per_tag(tag: u8) -> Option<usize> {
    if tag == ASSET_TAG_DEFAULT || tag == ASSET_TAG_SOL {
        Some(2usize)
    } else if tag == ASSET_TAG_STAKED {
        Some(4usize)
    } else {
        None
    }
}

/// Linked accounts needed per balance: two (bank, oracle) for ordinary
/// tags, four for staked collateral; an unknown tag is a tag-mismatch
/// error.
pub fn get_remaining_accounts_per_asset_tag(asset_tag: u8) -> (r: Result<usize, SurroundfiError>)
    ensures
        match spec_accounts_per_tag(asset_tag) {
            Some(n) => r == Ok::<usize, SurroundfiError>(n),
            None => r == Err::<usize, SurroundfiError>(SurroundfiError::AssetTagMismatch),
        },
{
    if asset_tag == ASSET_TAG_DEFAULT || asset_tag == ASSET_TAG_SOL {
        Ok(2)
    } else if asset_tag == ASSET_TAG_STAKED {
        Ok(4)
    } else {
        Err(SurroundfiError::AssetTagMismatch)
    }
}

/// Linked accounts needed for one bank, by its configured asset tag.
pub fn get_remaining_accounts_per_bank(bank: &crate::bank::Bank) -> (r: Result<
    usize,
    SurroundfiError,
>)
    ensures
        match spec_accounts_per_tag(bank.config.asset_tag) {
            Some(n) => r == Ok::<usize, SurroundfiError>(n),
            None => r == Err::<usize, SurroundfiError>(SurroundfiError::AssetTagMismatch),
        },
{
    get_remaining_accounts_per_asset_tag(bank.config.asset_tag)
}

/// Total linked accounts a risk check needs for all active balances of a
/// ledger, front to back; `None` where some active balance has an unknown
/// tag.
pub open spec fn spec_remaining_accounts_len(balances: Seq<Balance>) -> Option<int>
    decreases balances.len(),
{
    if balances.len() == 0 {
        Some(0)
    } else {
        match spec_remaining_accounts_len(balances.drop_last()) {
            Some(total) => {
                let b = balances.last();
                if b.active != 0 {
                    match spec_accounts_per_tag(b.bank_asset_tag) {
                        Some(n) => Some(total + n),
                        None => None,
                    }
                } else {
                    Some(total)
                }
            },
            None => None,
        }
    }
}

/// The flat sum never exceeds four per slot.
pub proof fn lemma_remaining_accounts_len_bound(balances: Seq<Balance>)
    ensures
        match spec_remaining_accounts_len(balances) {
            Some(n) => 0 <= n <= 4 * balances.len(),
            None => true,
        },
    decreases balances.len(),
{
    if balances.len() > 0 {
        lemma_remaining_accounts_len_bound(balances.drop_last());
    }
}

/// One per user and group: the account record.
#[derive(Clone, Debug)]
pub struct SurroundfiAccount {
    /// Identity of the owning group.
    pub group: u64,
    /// Identity of the owner.
    pub authority: u64,
    /// The balance ledger.
    pub lending_account: LendingAccount,
    /// Account bitfield flags.
    pub account_flags: u64,
    /// Wallet emissions may be withdrawn to without the owner's signature;
    /// zero when the owner has not opted in.
    pub emissions_destination_account: u64,
    /// Snapshot of the last health evaluation.
    pub health_cache: HealthCache,
}

impl SurroundfiAccount {
    /// Structural well-formedness of the account's ledger.
    pub open spec fn wf(self) -> bool {
        self.lending_account.wf()
    }

    /// Set the initial data for the account.
    pub fn initialize(&mut self, group: u64, authority: u64)
        ensures
            final(self).group == group,
            final(self).authority == authority,
            final(self).emissions_destination_account == 0,
            final(self).lending_account == old(self).lending_account,
            final(self).account_flags == old(self).account_flags,
            final(self).health_cache == old(self).health_cache,
    {
        self.authority = authority;
        self.group = group;
        self.emissions_destination_account = 0;
    }

    /// Whether the given account flag is set.
    pub fn get_flag(&self, flag: u64) -> (r: bool)
        ensures
            r == (self.account_flags & flag != 0),
    {
        self.account_flags & flag != 0
    }

    /// Set the given account flag.
    pub fn set_flag(&mut self, flag: u64)
        ensures
            final(self).account_flags == old(self).account_flags | flag,
            final(self).group == old(self).group,
            final(self).authority == old(self).authority,
            final(self).lending_account == old(self).lending_account,
            final(self).emissions_destination_account == old(self).emissions_destination_account,
            final(self).health_cache == old(self).health_cache,
    {
        self.account_flags = self.account_flags | flag;
    }

    /// Clear the given account flag.
    pub fn unset_flag(&mut self, flag: u64)
        ensures
            final(self).account_flags == old(self).account_flags & !flag,
            final(self).group == old(self).group,
            final(self).authority == old(self).authority,
            final(self).lending_account == old(self).lending_account,
            final(self).emissions_destination_account == old(self).emissions_destination_account,
            final(self).health_cache == old(self).health_cache,
    {
        self.account_flags = self.account_flags & !flag;
    }

    /// Move the account to a new authority. Allowed only after the admin
    /// set the transfer flag and while the account is not disabled; the
    /// flag is consumed by the transfer. On refusal nothing changes.
    pub fn set_new_account_authority_checked(&mut self, new_authority: u64) -> (r: Result<
        (),
        SurroundfiError,
    >)
        ensures
            (old(self).account_flags & ACCOUNT_TRANSFER_AUTHORITY_ALLOWED == 0 || old(self).account_flags
                & ACCOUNT_DISABLED != 0) ==> r == Err::<(), SurroundfiError>(
                SurroundfiError::IllegalAccountAuthorityTransfer,
            ) && *final(self) == *old(self),
            !(old(self).account_flags & ACCOUNT_TRANSFER_AUTHORITY_ALLOWED == 0 || old(self).account_flags
                & ACCOUNT_DISABLED != 0) ==> r == Ok::<(), SurroundfiError>(())
                && final(self).authority == new_authority && final(self).account_flags == (old(self).account_flags
                & !ACCOUNT_TRANSFER_AUTHORITY_ALLOWED) && final(self).group == old(self).group
                && final(self).lending_account == old(self).lending_account,
    {
        if !self.get_flag(ACCOUNT_TRANSFER_AUTHORITY_ALLOWED) || self.get_flag(ACCOUNT_DISABLED) {
            return Err(SurroundfiError::IllegalAccountAuthorityTransfer);
        }
        self.authority = new_authority;
        self.unset_flag(ACCOUNT_TRANSFER_AUTHORITY_ALLOWED);
        Ok(())
    }

    /// Whether the account may be destroyed: it is not disabled and every
    /// slot is logically empty.
    pub fn can_be_closed(&self) -> (r: bool)
        ensures
            r == (self.account_flags & ACCOUNT_DISABLED == 0 && forall|i: int|
                0 <= i < self.lending_account.balances@.len() ==> spec_get_side(
                    #[trigger] self.lending_account.balances@[i],
                ) is None),
    {
        if self.get_flag(ACCOUNT_DISABLED) {
            return false;
        }
        let mut i: usize = 0;
        while i < self.lending_account.balances.len()
            invariant
                i <= self.lending_account.balances@.len(),
                forall|j: int|
                    0 <= j < i ==> spec_get_side(
                        #[trigger] self.lending_account.balances@[j],
                    ) is None,
            decreases self.lending_account.balances@.len() - i,
        {
            if self.lending_account.balances[i].get_side().is_some() {
                return false;
            }
            i = i + 1;
        }
        true
    }

    /// Total linked accounts a risk check of this account needs, four for
    /// each active staked-tag balance and two for every other active
    /// balance.
    pub fn get_remaining_accounts_len(&self) -> (r: Result<usize, SurroundfiError>)
        requires
            self.wf(),
        ensures
            match spec_remaining_accounts_len(self.lending_account.balances@) {
                Some(n) => r == Ok::<usize, SurroundfiError>(n as usize),
                None => r == Err::<usize, SurroundfiError>(SurroundfiError::AssetTagMismatch),
            },
    {
        let mut total: usize = 0;
        let mut i: usize = 0;
        let n = self.lending_account.balances.len();
        while i < n
            invariant
                i <= n,
                n == self.lending_account.balances@.len(),
                n == MAX_LENDING_ACCOUNT_BALANCES,
                spec_remaining_accounts_len(self.lending_account.balances@.take(i as int)) == Some(
                    total as int,
                ),
                total <= 4 * i,
            decreases n - i,
        {
            proof {
                assert(self.lending_account.balances@.take(i + 1).drop_last()
                    == self.lending_account.balances@.take(i as int));
                assert(self.lending_account.balances@.take(i + 1).last()
                    == self.lending_account.balances@[i as int]);
            }
            let b = &self.lending_account.balances[i];
            if b.is_active() {
                let per = match get_remaining_accounts_per_asset_tag(b.bank_asset_tag) {
                    Ok(p) => p,
                    Err(e) => {
                        proof {
                            lemma_remaining_accounts_none_extends(
                                self.lending_account.balances@,
                                i as int,
                            );
                        }
                        return Err(e);
                    },
                };
                total = total + per;
            }
            i = i + 1;
        }
        proof {
            assert(self.lending_account.balances@.take(n as int)
                == self.lending_account.balances@);
        }
        Ok(total)
    }
}

/// Once the flat sum fails on a prefix because of an unknown tag on an
/// active slot, it fails on the whole ledger.
proof fn lemma_remaining_accounts_none_extends(balances: Seq<Balance>, i: int)
    requires
        0 <= i < balances.len(),
        spec_remaining_accounts_len(balances.take(i)) is Some,
        balances[i].active != 0,
        spec_accounts_per_tag(balances[i].bank_asset_tag) is None,
    ensures
        spec_remaining_accounts_len(balances) is None,
{
    lemma_remaining_accounts_none_from(balances, i + 1);
}

/// Helper: a `None` at some prefix length propagates to every longer
/// prefix, the whole sequence included.
proof fn lemma_remaining_accounts_none_from(balances: Seq<Balance>, k: int)
    requires
        1 <= k <= balances.len(),
        spec_remaining_accounts_len(balances.take(k - 1)) is Some,
        balances[k - 1].active != 0,
        spec_accounts_per_tag(balances[k - 1].bank_asset_tag) is None,
    ensures
        spec_remaining_accounts_len(balances) is None,
    decreases balances.len() - k,
{
    assert(balances.take(k).drop_last() == balances.take(k - 1));
    assert(balances.take(k).last() == balances[k - 1]);
    assert(spec_remaining_accounts_len(balances.take(k)) is None);
    lemma_remaining_accounts_none_propagates(balances, k);
}

/// Helper: once some prefix sums to `None`, every extension does too.
proof fn lemma_remaining_accounts_none_propagates(balances: Seq<Balance>, k: int)
    requires
        0 <= k <= balances.len(),
        spec_remaining_accounts_len(balances.take(k)) is None,
    ensures
        spec_remaining_accounts_len(balances) is None,
    decreases balances.len() - k,
{
    if k < balances.len() {
        assert(balances.take(k + 1).drop_last() == balances.take(k));
        lemma_remaining_accounts_none_propagates(balances, k + 1);
    } else {
        assert(balances.take(k) == balances);
    }
}

} // verus!
