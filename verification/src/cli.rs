//! Plain argument forms of configuration enums, as a command-line front
//! end names them, with their conversions into the protocol's own types,
//! and the dispatch decision for the incentive-program listing commands.

use vstd::prelude::*;
use crate::bank::{BankOperationalState, RiskTier};

verus! {

/// Argument form of a bank's risk tier.
#[derive(Clone, Copy, Debug, PartialEq, Eq, Structural)]
pub enum RiskTierArg {
    Collateral,
    Isolated,
}

impl core::convert::From<RiskTierArg> for RiskTier {
    /// The risk tier an argument names.
    fn from(value: RiskTierArg) -> (r: RiskTier) {
        match value {
            RiskTierArg::Collateral => RiskTier::Collateral,
            RiskTierArg::Isolated => RiskTier::Isolated,
        }
    }
}

impl vstd::std_specs::convert::FromSpecImpl<RiskTierArg> for RiskTier {
    open spec fn obeys_from_spec() -> bool {
        true
    }

    open spec fn from_spec(value: RiskTierArg) -> RiskTier {
        match value {
            RiskTierArg::Collateral => RiskTier::Collateral,
            RiskTierArg::Isolated => RiskTier::Isolated,
        }
    }
}

/// Argument form of a bank's operational state.
#[derive(Clone, Copy, Debug, PartialEq, Eq, Structural)]
pub enum BankOperationalStateArg {
    Paused,
    Operational,
    ReduceOnly,
}

impl core::convert::From<BankOperationalStateArg> for BankOperationalState {
    /// The operational state an argument names.
    fn from(val: BankOperationalStateArg) -> (r: BankOperationalState) {
        match val {
            BankOperationalStateArg::Paused => BankOperationalState::Paused,
            BankOperationalStateArg::Operational => BankOperationalState::Operational,
            BankOperationalStateArg::ReduceOnly => BankOperationalState::ReduceOnly,
        }
    }
}

impl vstd::std_specs::convert::FromSpecImpl<BankOperationalStateArg> for BankOperationalState {
    open spec fn obeys_from_spec() -> bool {
        true
    }

    open spec fn from_spec(val: BankOperationalStateArg) -> BankOperationalState {
        match val {
            BankOperationalStateArg::Paused => BankOperationalState::Paused,
            BankOperationalStateArg::Operational => BankOperationalState::Operational,
            BankOperationalStateArg::ReduceOnly => BankOperationalState::ReduceOnly,
        }
    }
}

/// The incentive-program subcommands a front end offers.
#[derive(Clone, Copy, Debug, PartialEq, Eq, Structural)]
pub enum LipCommand {
    /// List the campaigns.
    ListCampaigns,
    /// List the deposits.
    ListDeposits,
}

/// The listing an incentive-program subcommand asks for.
#[derive(Clone, Copy, Debug, PartialEq, Eq, Structural)]
pub enum LipListing {
    /// Walk and print the campaigns.
    Campaigns,
    /// Walk and print the deposits.
    Deposits,
}

/// Decide which incentive-program listing a subcommand asks for; the
/// walking and printing is the host's job.
pub fn process_lip_subcmd(subcmd: LipCommand) -> (r: LipListing)
    ensures
        subcmd is ListCampaigns ==> r is Campaigns,
        subcmd is ListDeposits ==> r is Deposits,
{
    match subcmd {
        LipCommand::ListCampaigns => LipListing::Campaigns,
        LipCommand::ListDeposits => LipListing::Deposits,
    }
}

} // verus!
