use vstd::prelude::*;

verus! {

/// Contract-specific failure causes, surfaced through [`ContractError::Custom`].
#[derive(Clone, Copy, Debug, PartialEq, Eq, Structural)]
pub enum CustomError {
    NotAdmin,
    MintNotPermitted,
    NotTokenOwner,
    InvalidInstruction,
}

/// Every failure an invocation can surface: the contract's own causes plus the
/// resource-level failures of the storage and sysvar layers and of the ledger
/// delegate's construction.
#[derive(Clone, Copy, Debug, PartialEq, Eq, Structural)]
pub enum ContractError {
    /// One of the contract's own authorization or protocol errors.
    Custom(CustomError),
    /// The invocation supplied fewer accounts than the transition reads.
    NotEnoughAccountKeys,
    /// The contract storage account's balance is below the storage-exemption
    /// threshold.
    AccountNotRentExempt,
    /// The supplied sysvar account is not the rent sysvar or holds corrupt data.
    InvalidArgument,
    /// A persisted buffer does not hold a well-formed record of the expected kind.
    DeserializationFailed,
    /// A persisted buffer is too small to hold the record being written.
    SerializationFailed,
    /// The token counter cannot be incremented further.
    ArithmeticOverflow,
    /// The ledger delegate was asked to target a program that is not the token
    /// ledger program.
    IncorrectProgramId,
}

impl From<CustomError> for ContractError {
    fn from(e: CustomError) -> (r: Self) {
        ContractError::Custom(e)
    }
}

impl vstd::std_specs::convert::FromSpecImpl<CustomError> for ContractError {
    open spec fn obeys_from_spec() -> bool {
        true
    }

    open spec fn from_spec(e: CustomError) -> Self {
        ContractError::Custom(e)
    }
}

} // verus!
