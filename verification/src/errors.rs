//! The errors that settlement, registry administration and the compliance
//! hook report.  Every error aborts the whole operation; none is recovered
//! locally.

use vstd::prelude::*;

verus! {

/// A typed failure reason, reported to the caller verbatim.
#[derive(Clone, Copy, Debug, PartialEq, Eq, Structural)]
pub enum PoolError {
    /// The pool's access-control policy refuses the caller right now.
    PoolDisabled,
    /// The fee-exclusive input amount is zero.
    AmountIsZero,
    /// The fee-exclusive output fell below the caller's minimum.
    ExceededSlippage,
    /// The fee-exclusive output fell below the hardened minimum that
    /// hook-bearing swaps must clear.
    InvalidHookSlippageTolerance,
    /// An arithmetic step could not be represented.
    MathOverflow,
    /// The re-derived forward fee disagreed with the inverse fee.
    FeeInverseIsIncorrect,
    /// A hook-bearing asset was swapped without a registry reference.
    MissingHookRegistry,
    /// A declared hook program is not in the supplied registry.
    UnauthorizedHookProgram,
    /// The supplied registry reference could not be read as a registry.
    InvalidHookRegistry,
    /// The registry already holds its maximum number of programs.
    HookRegistryFull,
    /// The program is already in the registry.
    HookProgramAlreadyWhitelisted,
    /// The program is not in the registry.
    HookProgramNotFound,
    /// A gated movement failed with a signal of resource exhaustion.
    HookExecutionTimeout,
    /// A gated movement failed over an unresolved or invalid auxiliary
    /// account.
    HookAccountResolutionFailed,
    /// A gated movement failed for any other reason.
    HookExecutionFailed,
    /// A plain (non-gated) movement failed; stands for the underlying
    /// movement error, which the host propagates unchanged.
    TransferFailed,
    /// The caller is not the administrator or authority the operation needs.
    InvalidAdmin,
    /// A listing badge was requested for an asset that needs none.
    CannotCreateTokenBadgeOnSupportedMint,
    /// The native token of the extension-bearing token program is not
    /// supported.
    UnsupportNativeMintToken2022,
    /// The asset's on-chain record could not be read.
    InvalidMintData,
    /// The fee-mode selector is not a known value.
    InvalidCollectFeeMode,
    /// No compliance record belongs to the moving party.
    UserKycNotFound,
    /// The compliance record carries the sanctions flag.
    UserSanctioned,
    /// The compliance record carries the frozen flag.
    UserAccountFrozen,
    /// The compliance record carries the expired flag.
    UserKycExpired,
    /// The compliance record's eligibility tier is below the required one.
    UserNotKycVerified,
    /// An eligibility tier outside the defined range was supplied.
    InvalidKycLevel,
    /// A risk score above the defined range was supplied.
    InvalidRiskScore,
    /// A country code that is not two ASCII letters was supplied, or the
    /// asset's declared location rules exclude the record's country.
    InvalidCountryCode,
    /// A subdivision code that is not up to two ASCII letters or digits was
    /// supplied, or the asset's declared location rules exclude the record's
    /// subdivision.
    InvalidStateCode,
    /// A city name that is not up to 32 printable ASCII bytes was supplied.
    InvalidCityName,
}

} // verus!
