//! The error taxonomy of the escrow protocol.
//!
//! Every failure aborts the whole operation: no handler leaves a partial
//! mutation behind when it returns an error.

use vstd::prelude::*;

verus! {

/// Protocol-specific failures, reported to callers as a numeric code.
#[derive(Clone, Copy, Debug, PartialEq, Eq, Structural)]
pub enum EscrowError {
    /// The operation payload had an unknown tag or was truncated.
    InvalidInstruction,
    /// Two accounts that must carry the same asset type do not.
    ExpectedMintMismatch,
    /// The caller-declared amount does not match the live holding balance.
    ExpectedAmountMismatch,
    /// The taker's offered balance does not exceed the demanded amount.
    NotEnoughBalanceToSent,
    /// A supplied account does not match the identity recorded in the escrow.
    InvalidAccountData,
    /// Crediting reclaimed storage would overflow a balance.
    AmountOverflow,
}

impl EscrowError {
    /// The numeric failure code of each variant, in declaration order.
    pub open spec fn spec_code(self) -> u32 {
        match self {
            EscrowError::InvalidInstruction => 0,
            EscrowError::ExpectedMintMismatch => 1,
            EscrowError::ExpectedAmountMismatch => 2,
            EscrowError::NotEnoughBalanceToSent => 3,
            EscrowError::InvalidAccountData => 4,
            EscrowError::AmountOverflow => 5,
        }
    }

    /// Returns the tagged failure code this error propagates as.
    pub fn code(&self) -> (r: u32)
        ensures
            r == self.spec_code(),
    {
        match self {
            EscrowError::InvalidInstruction => 0,
            EscrowError::ExpectedMintMismatch => 1,
            EscrowError::ExpectedAmountMismatch => 2,
            EscrowError::NotEnoughBalanceToSent => 3,
            EscrowError::InvalidAccountData => 4,
            EscrowError::AmountOverflow => 5,
        }
    }
}

/// Failures reported by the asset ledger when a delegated call is invalid.
#[derive(Clone, Copy, Debug, PartialEq, Eq, Structural)]
pub enum LedgerError {
    /// The source, destination or target account has been closed.
    AccountClosed,
    /// The two accounts of a transfer carry different asset types.
    MintMismatch,
    /// The source account holds less than the requested amount.
    InsufficientFunds,
    /// The named authority is not the authority over the account.
    OwnerMismatch,
    /// The named authority supplied no signature or seed proof.
    MissingSignature,
    /// Crediting the destination would overflow its balance.
    Overflow,
    /// An account still holding tokens cannot be closed.
    NonZeroBalance,
}

/// Every way an operation of the state machine can fail.
#[derive(Clone, Copy, Debug, PartialEq, Eq, Structural)]
pub enum OpError {
    /// A required signer did not sign the call.
    MissingRequiredSignature,
    /// An account is not owned by the program it must belong to.
    IncorrectProgramId,
    /// The escrow slot does not meet the storage-rent-exemption threshold.
    AccountNotRentExempt,
    /// Initialize was attempted on a slot that already holds a live record.
    AccountAlreadyInitialized,
    /// A record or token account that must be live is uninitialized.
    UninitializedAccount,
    /// Stored bytes do not form a valid record.
    InvalidAccountData,
    /// The account list does not fit the requested operation.
    NotEnoughAccountKeys,
    /// A protocol-specific failure, carrying its code.
    Escrow(EscrowError),
    /// A delegated call was rejected by the asset ledger.
    Ledger(LedgerError),
}

impl core::convert::From<EscrowError> for OpError {
    /// Protocol failures propagate as tagged custom codes.
    fn from(e: EscrowError) -> (r: OpError) {
        OpError::Escrow(e)
    }
}

impl vstd::std_specs::convert::FromSpecImpl<EscrowError> for OpError {
    open spec fn obeys_from_spec() -> bool {
        true
    }

    open spec fn from_spec(e: EscrowError) -> OpError {
        OpError::Escrow(e)
    }
}

} // verus!
