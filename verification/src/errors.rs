//! Error taxonomy of the protocol: math failures, state-policy violations,
//! risk violations, oracle failures, and internal defensive errors, each with
//! the stable numeric code the host surfaces to callers.

use vstd::prelude::*;

verus! {

/// Every failure the core can surface. The numeric code of each variant is
/// given by [`SurroundfiError::error_code`]; codes are stable and start at 6000.
#[derive(Clone, Copy, Debug, PartialEq, Eq, Structural)]
pub enum SurroundfiError {
    InternalLogicError,
    BankNotFound,
    LendingAccountBalanceNotFound,
    BankAssetCapacityExceeded,
    InvalidTransfer,
    MissingPythOrBankAccount,
    MissingPythAccount,
    MissingBankAccount,
    InvalidBankAccount,
    RiskEngineInitRejected,
    LendingAccountBalanceSlotsFull,
    BankAlreadyExists,
    ZeroLiquidationAmount,
    AccountNotBankrupt,
    BalanceNotBadDebt,
    InvalidConfig,
    BankPaused,
    BankReduceOnly,
    BankAccountNotFound,
    OperationDepositOnly,
    OperationWithdrawOnly,
    OperationBorrowOnly,
    OperationRepayOnly,
    NoAssetFound,
    NoLiabilityFound,
    InvalidOracleSetup,
    IllegalUtilizationRatio,
    BankLiabilityCapacityExceeded,
    InvalidPrice,
    IsolatedAccountIllegalState,
    EmissionsAlreadySetup,
    OracleNotSetup,
    InvalidSwitchboardDecimalConversion,
    CannotCloseOutstandingEmissions,
    EmissionsUpdateError,
    AccountDisabled,
    AccountTempActiveBalanceLimitExceeded,
    AccountInFlashloan,
    IllegalFlashloan,
    IllegalFlag,
    IllegalBalanceState,
    IllegalAccountAuthorityTransfer,
    Unauthorized,
    IllegalAction,
    T22MintRequired,
    InvalidFeeAta,
    AddedStakedPoolManually,
    AssetTagMismatch,
    StakePoolValidationFailed,
    SwitchboardStalePrice,
    PythPushStalePrice,
    WrongNumberOfOracleAccounts,
    WrongOracleAccountKeys,
    PythPushWrongAccountOwner,
    StakedPythPushWrongAccountOwner,
    PythPushMismatchedFeedId,
    PythPushInsufficientVerificationLevel,
    PythPushFeedIdMustBe32Bytes,
    PythPushFeedIdNonHexCharacter,
    SwitchboardWrongAccountOwner,
    PythPushInvalidAccount,
    SwitchboardInvalidAccount,
    MathError,
    InvalidEmissionsDestinationAccount,
    SameAssetAndLiabilityBanks,
    OverliquidationAttempt,
    NoLiabilitiesInLiabilityBank,
    AssetsInLiabilityBank,
    HealthyAccount,
    ExhaustedLiability,
    TooSeverePayoff,
    TooSevereLiquidation,
    WorseHealthPostLiquidation,
    ArenaBankLimit,
    ArenaSettingCannotChange,
}

/// The numeric code of each error variant, in declaration order from 6000.
pub open spec fn spec_error_code(e: SurroundfiError) -> u32 {
    match e {
        SurroundfiError::InternalLogicError => 6000,
        SurroundfiError::BankNotFound => 6001,
        SurroundfiError::LendingAccountBalanceNotFound => 6002,
        SurroundfiError::BankAssetCapacityExceeded => 6003,
        SurroundfiError::InvalidTransfer => 6004,
        SurroundfiError::MissingPythOrBankAccount => 6005,
        SurroundfiError::MissingPythAccount => 6006,
        SurroundfiError::MissingBankAccount => 6007,
        SurroundfiError::InvalidBankAccount => 6008,
        SurroundfiError::RiskEngineInitRejected => 6009,
        SurroundfiError::LendingAccountBalanceSlotsFull => 6010,
        SurroundfiError::BankAlreadyExists => 6011,
        SurroundfiError::ZeroLiquidationAmount => 6012,
        SurroundfiError::AccountNotBankrupt => 6013,
        SurroundfiError::BalanceNotBadDebt => 6014,
        SurroundfiError::InvalidConfig => 6015,
        SurroundfiError::BankPaused => 6016,
        SurroundfiError::BankReduceOnly => 6017,
        SurroundfiError::BankAccountNotFound => 6018,
        SurroundfiError::OperationDepositOnly => 6019,
        SurroundfiError::OperationWithdrawOnly => 6020,
        SurroundfiError::OperationBorrowOnly => 6021,
        SurroundfiError::OperationRepayOnly => 6022,
        SurroundfiError::NoAssetFound => 6023,
        SurroundfiError::NoLiabilityFound => 6024,
        SurroundfiError::InvalidOracleSetup => 6025,
        SurroundfiError::IllegalUtilizationRatio => 6026,
        SurroundfiError::BankLiabilityCapacityExceeded => 6027,
        SurroundfiError::InvalidPrice => 6028,
        SurroundfiError::IsolatedAccountIllegalState => 6029,
        SurroundfiError::EmissionsAlreadySetup => 6030,
        SurroundfiError::OracleNotSetup => 6031,
        SurroundfiError::InvalidSwitchboardDecimalConversion => 6032,
        SurroundfiError::CannotCloseOutstandingEmissions => 6033,
        SurroundfiError::EmissionsUpdateError => 6034,
        SurroundfiError::AccountDisabled => 6035,
        SurroundfiError::AccountTempActiveBalanceLimitExceeded => 6036,
        SurroundfiError::AccountInFlashloan => 6037,
        SurroundfiError::IllegalFlashloan => 6038,
        SurroundfiError::IllegalFlag => 6039,
        SurroundfiError::IllegalBalanceState => 6040,
        SurroundfiError::IllegalAccountAuthorityTransfer => 6041,
        SurroundfiError::Unauthorized => 6042,
        SurroundfiError::IllegalAction => 6043,
        SurroundfiError::T22MintRequired => 6044,
        SurroundfiError::InvalidFeeAta => 6045,
        SurroundfiError::AddedStakedPoolManually => 6046,
        SurroundfiError::AssetTagMismatch => 6047,
        SurroundfiError::StakePoolValidationFailed => 6048,
        SurroundfiError::SwitchboardStalePrice => 6049,
        SurroundfiError::PythPushStalePrice => 6050,
        SurroundfiError::WrongNumberOfOracleAccounts => 6051,
        SurroundfiError::WrongOracleAccountKeys => 6052,
        SurroundfiError::PythPushWrongAccountOwner => 6053,
        SurroundfiError::StakedPythPushWrongAccountOwner => 6054,
        SurroundfiError::PythPushMismatchedFeedId => 6055,
        SurroundfiError::PythPushInsufficientVerificationLevel => 6056,
        SurroundfiError::PythPushFeedIdMustBe32Bytes => 6057,
        SurroundfiError::PythPushFeedIdNonHexCharacter => 6058,
        SurroundfiError::SwitchboardWrongAccountOwner => 6059,
        SurroundfiError::PythPushInvalidAccount => 6060,
        SurroundfiError::SwitchboardInvalidAccount => 6061,
        SurroundfiError::MathError => 6062,
        SurroundfiError::InvalidEmissionsDestinationAccount => 6063,
        SurroundfiError::SameAssetAndLiabilityBanks => 6064,
        SurroundfiError::OverliquidationAttempt => 6065,
        SurroundfiError::NoLiabilitiesInLiabilityBank => 6066,
        SurroundfiError::AssetsInLiabilityBank => 6067,
        SurroundfiError::HealthyAccount => 6068,
        SurroundfiError::ExhaustedLiability => 6069,
        SurroundfiError::TooSeverePayoff => 6070,
        SurroundfiError::TooSevereLiquidation => 6071,
        SurroundfiError::WorseHealthPostLiquidation => 6072,
        SurroundfiError::ArenaBankLimit => 6073,
        SurroundfiError::ArenaSettingCannotChange => 6074,
    }
}

/// The variant a raw host error code decodes to; codes outside the mapped
/// range fall back to the internal-logic error.
pub open spec fn spec_error_from_code(code: u32) -> SurroundfiError {
    match code {
        6001u32 => SurroundfiError::BankNotFound,
        6002u32 => SurroundfiError::LendingAccountBalanceNotFound,
        6003u32 => SurroundfiError::BankAssetCapacityExceeded,
        6004u32 => SurroundfiError::InvalidTransfer,
        6005u32 => SurroundfiError::MissingPythOrBankAccount,
        6006u32 => SurroundfiError::MissingPythAccount,
        6007u32 => SurroundfiError::MissingBankAccount,
        6008u32 => SurroundfiError::InvalidBankAccount,
        6009u32 => SurroundfiError::RiskEngineInitRejected,
        6010u32 => SurroundfiError::LendingAccountBalanceSlotsFull,
        6011u32 => SurroundfiError::BankAlreadyExists,
        6012u32 => SurroundfiError::ZeroLiquidationAmount,
        6013u32 => SurroundfiError::AccountNotBankrupt,
        6014u32 => SurroundfiError::BalanceNotBadDebt,
        6015u32 => SurroundfiError::InvalidConfig,
        6016u32 => SurroundfiError::BankPaused,
        6017u32 => SurroundfiError::BankReduceOnly,
        6018u32 => SurroundfiError::BankAccountNotFound,
        6019u32 => SurroundfiError::OperationDepositOnly,
        6020u32 => SurroundfiError::OperationWithdrawOnly,
        6021u32 => SurroundfiError::OperationBorrowOnly,
        6022u32 => SurroundfiError::OperationRepayOnly,
        6023u32 => SurroundfiError::NoAssetFound,
        6024u32 => SurroundfiError::NoLiabilityFound,
        6025u32 => SurroundfiError::InvalidOracleSetup,
        6026u32 => SurroundfiError::IllegalUtilizationRatio,
        6027u32 => SurroundfiError::BankLiabilityCapacityExceeded,
        6028u32 => SurroundfiError::InvalidPrice,
        6029u32 => SurroundfiError::IsolatedAccountIllegalState,
        6030u32 => SurroundfiError::EmissionsAlreadySetup,
        6031u32 => SurroundfiError::OracleNotSetup,
        6032u32 => SurroundfiError::InvalidSwitchboardDecimalConversion,
        6033u32 => SurroundfiError::CannotCloseOutstandingEmissions,
        6034u32 => SurroundfiError::EmissionsUpdateError,
        6035u32 => SurroundfiError::AccountDisabled,
        6036u32 => SurroundfiError::AccountTempActiveBalanceLimitExceeded,
        6037u32 => SurroundfiError::AccountInFlashloan,
        6038u32 => SurroundfiError::IllegalFlashloan,
        6039u32 => SurroundfiError::IllegalFlag,
        6040u32 => SurroundfiError::IllegalBalanceState,
        6041u32 => SurroundfiError::IllegalAccountAuthorityTransfer,
        6042u32 => SurroundfiError::Unauthorized,
        6043u32 => SurroundfiError::IllegalAction,
        6044u32 => SurroundfiError::T22MintRequired,
        6045u32 => SurroundfiError::InvalidFeeAta,
        6046u32 => SurroundfiError::AddedStakedPoolManually,
        6047u32 => SurroundfiError::AssetTagMismatch,
        6048u32 => SurroundfiError::StakePoolValidationFailed,
        6049u32 => SurroundfiError::SwitchboardStalePrice,
        6050u32 => SurroundfiError::PythPushStalePrice,
        6051u32 => SurroundfiError::WrongNumberOfOracleAccounts,
        6052u32 => SurroundfiError::WrongOracleAccountKeys,
        6053u32 => SurroundfiError::PythPushWrongAccountOwner,
        6054u32 => SurroundfiError::StakedPythPushWrongAccountOwner,
        6055u32 => SurroundfiError::PythPushMismatchedFeedId,
        6056u32 => SurroundfiError::PythPushInsufficientVerificationLevel,
        6057u32 => SurroundfiError::PythPushFeedIdMustBe32Bytes,
        6058u32 => SurroundfiError::PythPushFeedIdNonHexCharacter,
        6059u32 => SurroundfiError::SwitchboardWrongAccountOwner,
        6060u32 => SurroundfiError::PythPushInvalidAccount,
        6061u32 => SurroundfiError::SwitchboardInvalidAccount,
        6062u32 => SurroundfiError::MathError,
        6063u32 => SurroundfiError::InvalidEmissionsDestinationAccount,
        6064u32 => SurroundfiError::SameAssetAndLiabilityBanks,
        6065u32 => SurroundfiError::OverliquidationAttempt,
        6066u32 => SurroundfiError::NoLiabilitiesInLiabilityBank,
        6067u32 => SurroundfiError::AssetsInLiabilityBank,
        6068u32 => SurroundfiError::HealthyAccount,
        6069u32 => SurroundfiError::ExhaustedLiability,
        6070u32 => SurroundfiError::TooSeverePayoff,
        6071u32 => SurroundfiError::TooSevereLiquidation,
        6072u32 => SurroundfiError::WorseHealthPostLiquidation,
        _ => SurroundfiError::InternalLogicError,
    }
}

impl SurroundfiError {
    /// The stable numeric code of this error.
    pub fn error_code(&self) -> (code: u32)
        ensures
            code == spec_error_code(*self),
    {
        match *self {
            SurroundfiError::InternalLogicError => 6000,
            SurroundfiError::BankNotFound => 6001,
            SurroundfiError::LendingAccountBalanceNotFound => 6002,
            SurroundfiError::BankAssetCapacityExceeded => 6003,
            SurroundfiError::InvalidTransfer => 6004,
            SurroundfiError::MissingPythOrBankAccount => 6005,
            SurroundfiError::MissingPythAccount => 6006,
            SurroundfiError::MissingBankAccount => 6007,
            SurroundfiError::InvalidBankAccount => 6008,
            SurroundfiError::RiskEngineInitRejected => 6009,
            SurroundfiError::LendingAccountBalanceSlotsFull => 6010,
            SurroundfiError::BankAlreadyExists => 6011,
            SurroundfiError::ZeroLiquidationAmount => 6012,
            SurroundfiError::AccountNotBankrupt => 6013,
            SurroundfiError::BalanceNotBadDebt => 6014,
            SurroundfiError::InvalidConfig => 6015,
            SurroundfiError::BankPaused => 6016,
            SurroundfiError::BankReduceOnly => 6017,
            SurroundfiError::BankAccountNotFound => 6018,
            SurroundfiError::OperationDepositOnly => 6019,
            SurroundfiError::OperationWithdrawOnly => 6020,
            SurroundfiError::OperationBorrowOnly => 6021,
            SurroundfiError::OperationRepayOnly => 6022,
            SurroundfiError::NoAssetFound => 6023,
            SurroundfiError::NoLiabilityFound => 6024,
            SurroundfiError::InvalidOracleSetup => 6025,
            SurroundfiError::IllegalUtilizationRatio => 6026,
            SurroundfiError::BankLiabilityCapacityExceeded => 6027,
            SurroundfiError::InvalidPrice => 6028,
            SurroundfiError::IsolatedAccountIllegalState => 6029,
            SurroundfiError::EmissionsAlreadySetup => 6030,
            SurroundfiError::OracleNotSetup => 6031,
            SurroundfiError::InvalidSwitchboardDecimalConversion => 6032,
            SurroundfiError::CannotCloseOutstandingEmissions => 6033,
            SurroundfiError::EmissionsUpdateError => 6034,
            SurroundfiError::AccountDisabled => 6035,
            SurroundfiError::AccountTempActiveBalanceLimitExceeded => 6036,
            SurroundfiError::AccountInFlashloan => 6037,
            SurroundfiError::IllegalFlashloan => 6038,
            SurroundfiError::IllegalFlag => 6039,
            SurroundfiError::IllegalBalanceState => 6040,
            SurroundfiError::IllegalAccountAuthorityTransfer => 6041,
            SurroundfiError::Unauthorized => 6042,
            SurroundfiError::IllegalAction => 6043,
            SurroundfiError::T22MintRequired => 6044,
            SurroundfiError::InvalidFeeAta => 6045,
            SurroundfiError::AddedStakedPoolManually => 6046,
            SurroundfiError::AssetTagMismatch => 6047,
            SurroundfiError::StakePoolValidationFailed => 6048,
            SurroundfiError::SwitchboardStalePrice => 6049,
            SurroundfiError::PythPushStalePrice => 6050,
            SurroundfiError::WrongNumberOfOracleAccounts => 6051,
            SurroundfiError::WrongOracleAccountKeys => 6052,
            SurroundfiError::PythPushWrongAccountOwner => 6053,
            SurroundfiError::StakedPythPushWrongAccountOwner => 6054,
            SurroundfiError::PythPushMismatchedFeedId => 6055,
            SurroundfiError::PythPushInsufficientVerificationLevel => 6056,
            SurroundfiError::PythPushFeedIdMustBe32Bytes => 6057,
            SurroundfiError::PythPushFeedIdNonHexCharacter => 6058,
            SurroundfiError::SwitchboardWrongAccountOwner => 6059,
            SurroundfiError::PythPushInvalidAccount => 6060,
            SurroundfiError::SwitchboardInvalidAccount => 6061,
            SurroundfiError::MathError => 6062,
            SurroundfiError::InvalidEmissionsDestinationAccount => 6063,
            SurroundfiError::SameAssetAndLiabilityBanks => 6064,
            SurroundfiError::OverliquidationAttempt => 6065,
            SurroundfiError::NoLiabilitiesInLiabilityBank => 6066,
            SurroundfiError::AssetsInLiabilityBank => 6067,
            SurroundfiError::HealthyAccount => 6068,
            SurroundfiError::ExhaustedLiability => 6069,
            SurroundfiError::TooSeverePayoff => 6070,
            SurroundfiError::TooSevereLiquidation => 6071,
            SurroundfiError::WorseHealthPostLiquidation => 6072,
            SurroundfiError::ArenaBankLimit => 6073,
            SurroundfiError::ArenaSettingCannotChange => 6074,
        }
    }
}

impl core::convert::From<u32> for SurroundfiError {
    /// Decode a raw host error code; unmapped codes become the
    /// internal-logic error.
    fn from(value: u32) -> (e: SurroundfiError) {
        match value {
            6001u32 => SurroundfiError::BankNotFound,
            6002u32 => SurroundfiError::LendingAccountBalanceNotFound,
            6003u32 => SurroundfiError::BankAssetCapacityExceeded,
            6004u32 => SurroundfiError::InvalidTransfer,
            6005u32 => SurroundfiError::MissingPythOrBankAccount,
            6006u32 => SurroundfiError::MissingPythAccount,
            6007u32 => SurroundfiError::MissingBankAccount,
            6008u32 => SurroundfiError::InvalidBankAccount,
            6009u32 => SurroundfiError::RiskEngineInitRejected,
            6010u32 => SurroundfiError::LendingAccountBalanceSlotsFull,
            6011u32 => SurroundfiError::BankAlreadyExists,
            6012u32 => SurroundfiError::ZeroLiquidationAmount,
            6013u32 => SurroundfiError::AccountNotBankrupt,
            6014u32 => SurroundfiError::BalanceNotBadDebt,
            6015u32 => SurroundfiError::InvalidConfig,
            6016u32 => SurroundfiError::BankPaused,
            6017u32 => SurroundfiError::BankReduceOnly,
            6018u32 => SurroundfiError::BankAccountNotFound,
            6019u32 => SurroundfiError::OperationDepositOnly,
            6020u32 => SurroundfiError::OperationWithdrawOnly,
            6021u32 => SurroundfiError::OperationBorrowOnly,
            6022u32 => SurroundfiError::OperationRepayOnly,
            6023u32 => SurroundfiError::NoAssetFound,
            6024u32 => SurroundfiError::NoLiabilityFound,
            6025u32 => SurroundfiError::InvalidOracleSetup,
            6026u32 => SurroundfiError::IllegalUtilizationRatio,
            6027u32 => SurroundfiError::BankLiabilityCapacityExceeded,
            6028u32 => SurroundfiError::InvalidPrice,
            6029u32 => SurroundfiError::IsolatedAccountIllegalState,
            6030u32 => SurroundfiError::EmissionsAlreadySetup,
            6031u32 => SurroundfiError::OracleNotSetup,
            6032u32 => SurroundfiError::InvalidSwitchboardDecimalConversion,
            6033u32 => SurroundfiError::CannotCloseOutstandingEmissions,
            6034u32 => SurroundfiError::EmissionsUpdateError,
            6035u32 => SurroundfiError::AccountDisabled,
            6036u32 => SurroundfiError::AccountTempActiveBalanceLimitExceeded,
            6037u32 => SurroundfiError::AccountInFlashloan,
            6038u32 => SurroundfiError::IllegalFlashloan,
            6039u32 => SurroundfiError::IllegalFlag,
            6040u32 => SurroundfiError::IllegalBalanceState,
            6041u32 => SurroundfiError::IllegalAccountAuthorityTransfer,
            6042u32 => SurroundfiError::Unauthorized,
            6043u32 => SurroundfiError::IllegalAction,
            6044u32 => SurroundfiError::T22MintRequired,
            6045u32 => SurroundfiError::InvalidFeeAta,
            6046u32 => SurroundfiError::AddedStakedPoolManually,
            6047u32 => SurroundfiError::AssetTagMismatch,
            6048u32 => SurroundfiError::StakePoolValidationFailed,
            6049u32 => SurroundfiError::SwitchboardStalePrice,
            6050u32 => SurroundfiError::PythPushStalePrice,
            6051u32 => SurroundfiError::WrongNumberOfOracleAccounts,
            6052u32 => SurroundfiError::WrongOracleAccountKeys,
            6053u32 => SurroundfiError::PythPushWrongAccountOwner,
            6054u32 => SurroundfiError::StakedPythPushWrongAccountOwner,
            6055u32 => SurroundfiError::PythPushMismatchedFeedId,
            6056u32 => SurroundfiError::PythPushInsufficientVerificationLevel,
            6057u32 => SurroundfiError::PythPushFeedIdMustBe32Bytes,
            6058u32 => SurroundfiError::PythPushFeedIdNonHexCharacter,
            6059u32 => SurroundfiError::SwitchboardWrongAccountOwner,
            6060u32 => SurroundfiError::PythPushInvalidAccount,
            6061u32 => SurroundfiError::SwitchboardInvalidAccount,
            6062u32 => SurroundfiError::MathError,
            6063u32 => SurroundfiError::InvalidEmissionsDestinationAccount,
            6064u32 => SurroundfiError::SameAssetAndLiabilityBanks,
            6065u32 => SurroundfiError::OverliquidationAttempt,
            6066u32 => SurroundfiError::NoLiabilitiesInLiabilityBank,
            6067u32 => SurroundfiError::AssetsInLiabilityBank,
            6068u32 => SurroundfiError::HealthyAccount,
            6069u32 => SurroundfiError::ExhaustedLiability,
            6070u32 => SurroundfiError::TooSeverePayoff,
            6071u32 => SurroundfiError::TooSevereLiquidation,
            6072u32 => SurroundfiError::WorseHealthPostLiquidation,
            _ => SurroundfiError::InternalLogicError,
        }
    }
}

impl vstd::std_specs::convert::FromSpecImpl<u32> for SurroundfiError {
    open spec fn obeys_from_spec() -> bool {
        true
    }

    open spec fn from_spec(value: u32) -> SurroundfiError {
        spec_error_from_code(value)
    }
}

} // verus!
