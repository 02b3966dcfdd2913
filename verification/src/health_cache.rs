//! Diagnostic snapshot of an account's last health evaluation: weighted
//! totals, the per-balance prices used, a timestamp, and verdict bits. It
//! is derived data for off-chain consumers, never authoritative.

use vstd::prelude::*;
use crate::constants::MAX_LENDING_ACCOUNT_BALANCES;
use crate::i80f48::I80F48;

verus! {

/// Health-cache flag: the engine judged the account healthy.
pub const HEALTHY_FLAG: u64 = 1;

/// Health-cache flag: the engine ran to completion.
pub const ENGINE_OK_FLAG: u64 = 2;

/// The cached result of one health evaluation.
#[derive(Clone, Debug)]
pub struct HealthCache {
    /// Weighted total asset value at the last evaluation.
    pub asset_value: I80F48,
    /// Weighted total liability value at the last evaluation.
    pub liability_value: I80F48,
    /// The biased oracle price used for each balance slot.
    pub prices: Vec<I80F48>,
    /// When the evaluation ran.
    pub timestamp: i64,
    /// Verdict bits.
    pub flags: u64,
}

impl HealthCache {
    /// An all-zero cache with one price slot per balance slot.
    pub fn zeroed() -> (r: HealthCache)
        ensures
            r.asset_value.bits == 0,
            r.liability_value.bits == 0,
            r.prices@.len() == MAX_LENDING_ACCOUNT_BALANCES,
            forall|i: int|
                0 <= i < r.prices@.len() ==> (#[trigger] r.prices@[i]).bits == 0,
            r.timestamp == 0,
            r.flags == 0,
    {
        let mut prices: Vec<I80F48> = Vec::new();
        let mut i: usize = 0;
        while i < MAX_LENDING_ACCOUNT_BALANCES
            invariant
                i <= MAX_LENDING_ACCOUNT_BALANCES,
                prices@.len() == i,
                forall|j: int| 0 <= j < i ==> (#[trigger] prices@[j]).bits == 0,
            decreases MAX_LENDING_ACCOUNT_BALANCES - i,
        {
            prices.push(I80F48::zero());
            i = i + 1;
        }
        HealthCache {
            asset_value: I80F48::zero(),
            liability_value: I80F48::zero(),
            prices,
            timestamp: 0,
            flags: 0,
        }
    }

    /// Whether the healthy bit is set.
    pub fn is_healthy(&self) -> (r: bool)
        ensures
            r == (self.flags & HEALTHY_FLAG != 0),
    {
        self.flags & HEALTHY_FLAG != 0
    }

    /// Record the healthy verdict.
    pub fn set_healthy(&mut self, healthy: bool)
        ensures
            healthy ==> final(self).flags == old(self).flags | HEALTHY_FLAG,
            !healthy ==> final(self).flags == old(self).flags & !HEALTHY_FLAG,
            final(self).asset_value == old(self).asset_value,
            final(self).liability_value == old(self).liability_value,
            final(self).prices == old(self).prices,
            final(self).timestamp == old(self).timestamp,
    {
        if healthy {
            self.flags = self.flags | HEALTHY_FLAG;
        } else {
            self.flags = self.flags & !HEALTHY_FLAG;
        }
    }

    /// Record whether the engine ran to completion.
    pub fn set_engine_ok(&mut self, ok: bool)
        ensures
            ok ==> final(self).flags == old(self).flags | ENGINE_OK_FLAG,
            !ok ==> final(self).flags == old(self).flags & !ENGINE_OK_FLAG,
            final(self).asset_value == old(self).asset_value,
            final(self).liability_value == old(self).liability_value,
            final(self).prices == old(self).prices,
            final(self).timestamp == old(self).timestamp,
    {
        if ok {
            self.flags = self.flags | ENGINE_OK_FLAG;
        } else {
            self.flags = self.flags & !ENGINE_OK_FLAG;
        }
    }
}

} // verus!
