//! Group state: the administrative root all banks and accounts of one
//! deployment hang off, with its program-fee cache and group flags.

use vstd::prelude::*;
use crate::constants::{ARENA_GROUP, PROGRAM_FEES_ENABLED};
use crate::errors::SurroundfiError;
use crate::i80f48::I80F48;

verus! {

/// Snapshot of the program-wide fee parameters, cached per group.
#[derive(Clone, Copy, Debug, PartialEq, Eq, Structural)]
pub struct FeeStateCache {
    /// Identity of the wallet collecting program fees.
    pub global_fee_wallet: u64,
    /// Flat annual program fee.
    pub program_fee_fixed: I80F48,
    /// Fraction of the base borrow rate taken as program fee.
    pub program_fee_rate: I80F48,
}

/// One lending group: an admin, its flags, the cached program-fee state,
/// and the number of banks created under it.
#[derive(Clone, Copy, Debug, PartialEq, Eq, Structural)]
pub struct SurroundfiGroup {
    /// Identity of the group admin.
    pub admin: u64,
    /// Group bitfield flags.
    pub group_flags: u64,
    /// Cached program-fee parameters.
    pub fee_state_cache: FeeStateCache,
    /// Number of banks created under this group.
    pub banks: u16,
}

impl SurroundfiGroup {
    /// Whether the given group flag is set.
    pub fn get_flag(&self, flag: u64) -> (r: bool)
        ensures
            r == (self.group_flags & flag != 0),
    {
        self.group_flags & flag != 0
    }

    /// Whether program-level fees are collected for this group's banks.
    pub fn program_fees_enabled(&self) -> (r: bool)
        ensures
            r == (self.group_flags & PROGRAM_FEES_ENABLED != 0),
    {
        self.group_flags & PROGRAM_FEES_ENABLED != 0
    }

    /// Whether this group is an arena group.
    pub fn is_arena_group(&self) -> (r: bool)
        ensures
            r == (self.group_flags & ARENA_GROUP != 0),
    {
        self.group_flags & ARENA_GROUP != 0
    }

    /// First-time setup: record the admin.
    pub fn set_initial_configuration(&mut self, admin: u64)
        ensures
            *final(self) == (SurroundfiGroup { admin, ..*old(self) }),
    {
        self.admin = admin;
    }

    /// Hand the group to a new admin.
    pub fn update_admin(&mut self, new_admin: u64)
        ensures
            *final(self) == (SurroundfiGroup { admin: new_admin, ..*old(self) }),
    {
        self.admin = new_admin;
    }

    /// Switch program-fee collection on or off.
    pub fn set_program_fee_enabled(&mut self, enabled: bool)
        ensures
            enabled ==> *final(self) == (SurroundfiGroup {
                group_flags: old(self).group_flags | PROGRAM_FEES_ENABLED,
                ..*old(self)
            }),
            !enabled ==> *final(self) == (SurroundfiGroup {
                group_flags: old(self).group_flags & !PROGRAM_FEES_ENABLED,
                ..*old(self)
            }),
    {
        if enabled {
            self.group_flags = self.group_flags | PROGRAM_FEES_ENABLED;
        } else {
            self.group_flags = self.group_flags & !PROGRAM_FEES_ENABLED;
        }
    }

    /// Mark or unmark the group as an arena group. An arena group supports
    /// at most two banks and can never return to non-arena status; the
    /// group is unchanged on error.
    pub fn set_arena_group(&mut self, value: bool) -> (r: Result<(), SurroundfiError>)
        ensures
            value && old(self).banks > 2 ==> r == Err::<(), SurroundfiError>(
                SurroundfiError::ArenaBankLimit,
            ) && *final(self) == *old(self),
            !(value && old(self).banks > 2) && (old(self).group_flags & ARENA_GROUP != 0) && !value
                ==> r == Err::<(), SurroundfiError>(SurroundfiError::ArenaSettingCannotChange)
                && *final(self) == *old(self),
            !(value && old(self).banks > 2) && !((old(self).group_flags & ARENA_GROUP != 0)
                && !value) ==> r == Ok::<(), SurroundfiError>(()) && *final(self) == (
            SurroundfiGroup {
                group_flags: if value {
                    old(self).group_flags | ARENA_GROUP
                } else {
                    old(self).group_flags & !ARENA_GROUP
                },
                ..*old(self)
            }),
    {
        if value && self.banks > 2 {
            return Err(SurroundfiError::ArenaBankLimit);
        }
        if self.get_flag(ARENA_GROUP) && !value {
            return Err(SurroundfiError::ArenaSettingCannotChange);
        }
        if value {
            self.group_flags = self.group_flags | ARENA_GROUP;
        } else {
            self.group_flags = self.group_flags & !ARENA_GROUP;
        }
        Ok(())
    }
}

} // verus!
