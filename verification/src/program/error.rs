//! The errors of the run-time model, each with its number and its message.

use vstd::prelude::*;

verus! {

/// What can go wrong in the run-time model.
#[derive(Clone, Copy, Debug, PartialEq, Eq, Structural)]
pub enum Error {
    /// 100: 8 byte instruction identifier not provided.
    InstructionMissing,
    /// 101: Fallback functions are not supported.
    InstructionFallbackNotFound,
    /// 102: The program could not deserialize the given instruction.
    InstructionDidNotDeserialize,
    /// 103: The program could not serialize the given instruction.
    InstructionDidNotSerialize,
    /// 1000: The program was compiled without idl instructions.
    IdlInstructionStub,
    /// 1001: Invalid program given to the IDL instruction.
    IdlInstructionInvalidProgram,
    /// 2000: A mut constraint was violated.
    ConstraintMut,
    /// 2001: A has one constraint was violated.
    ConstraintHasOne,
    /// 2002: A signer constraint was violated.
    ConstraintSigner,
    /// 2003: A raw constraint was violated.
    ConstraintRaw,
    /// 2004: An owner constraint was violated.
    ConstraintOwner,
    /// 2005: A rent exemption constraint was violated.
    ConstraintRentExempt,
    /// 2006: A seeds constraint was violated.
    ConstraintSeeds,
    /// 2007: An executable constraint was violated.
    ConstraintExecutable,
    /// 2008: A state constraint was violated.
    ConstraintState,
    /// 2009: An associated constraint was violated.
    ConstraintAssociated,
    /// 2010: An associated init constraint was violated.
    ConstraintAssociatedInit,
    /// 2011: A close constraint was violated.
    ConstraintClose,
    /// 2012: An address constraint was violated.
    ConstraintAddress,
    /// 2013: Expected zero account discriminant.
    ConstraintZero,
    /// 2014: A token mint constraint was violated.
    ConstraintTokenMint,
    /// 2015: A token owner constraint was violated.
    ConstraintTokenOwner,
    /// 2016: A mint mint authority constraint was violated.
    ConstraintMintMintAuthority,
    /// 2017: A mint freeze authority constraint was violated.
    ConstraintMintFreezeAuthority,
    /// 2018: A mint decimals constraint was violated.
    ConstraintMintDecimals,
    /// 2019: A space constraint was violated.
    ConstraintSpace,
    /// 2500: A require expression was violated.
    RequireViolated,
    /// 2501: A require_eq expression was violated.
    RequireEqViolated,
    /// 2502: A require_keys_eq expression was violated.
    RequireKeysEqViolated,
    /// 2503: A require_neq expression was violated.
    RequireNeqViolated,
    /// 2504: A require_keys_neq expression was violated.
    RequireKeysNeqViolated,
    /// 2505: A require_gt expression was violated.
    RequireGtViolated,
    /// 2506: A require_gte expression was violated.
    RequireGteViolated,
    /// 3000: The account discriminator was already set on this account.
    AccountDiscriminatorAlreadySet,
    /// 3001: No 8 byte discriminator was found on the account.
    AccountDiscriminatorNotFound,
    /// 3002: 8 byte discriminator did not match what was expected.
    AccountDiscriminatorMismatch,
    /// 3003: Failed to deserialize the account.
    AccountDidNotDeserialize,
    /// 3004: Failed to serialize the account.
    AccountDidNotSerialize,
    /// 3005: Not enough account keys given to the instruction.
    AccountNotEnoughKeys,
    /// 3006: The given account is not mutable.
    AccountNotMutable,
    /// 3007: The given account is owned by a different program than expected.
    AccountOwnedByWrongProgram,
    /// 3008: Program ID was not as expected.
    InvalidProgramId,
    /// 3009: Program account is not executable.
    InvalidProgramExecutable,
    /// 3010: The given account did not sign.
    AccountNotSigner,
    /// 3011: The given account is not owned by the system program.
    AccountNotSystemOwned,
    /// 3012: The program expected this account to be already initialized.
    AccountNotInitialized,
    /// 3013: The given account is not a program data account.
    AccountNotProgramData,
    /// 3014: The given account is not the associated token account.
    AccountNotAssociatedTokenAccount,
    /// 3015: The given public key does not match the required sysvar.
    AccountSysvarMismatch,
    /// 3016: The account reallocation exceeds the MAX_PERMITTED_DATA_INCREASE limit.
    AccountReallocExceedsLimit,
    /// 3017: The account was duplicated for more than one reallocation.
    AccountDuplicateReallocs,
    /// 4000: The given state account does not have the correct address.
    StateInvalidAddress,
    /// 4100: The declared program id does not match the actual program id.
    DeclaredProgramIdMismatch,
    /// 5000: The API being used is deprecated and should no longer be used.
    Deprecated,
    /// 9999: Generic rust error.
    StdIo,
    /// An error that has no number of its own.
    Generic,
}

impl Error {
    /// The number of the error.
    pub open spec fn code_of(self) -> u32 {
        match self {
            Error::InstructionMissing => 100,
            Error::InstructionFallbackNotFound => 101,
            Error::InstructionDidNotDeserialize => 102,
            Error::InstructionDidNotSerialize => 103,
            Error::IdlInstructionStub => 1000,
            Error::IdlInstructionInvalidProgram => 1001,
            Error::ConstraintMut => 2000,
            Error::ConstraintHasOne => 2001,
            Error::ConstraintSigner => 2002,
            Error::ConstraintRaw => 2003,
            Error::ConstraintOwner => 2004,
            Error::ConstraintRentExempt => 2005,
            Error::ConstraintSeeds => 2006,
            Error::ConstraintExecutable => 2007,
            Error::ConstraintState => 2008,
            Error::ConstraintAssociated => 2009,
            Error::ConstraintAssociatedInit => 2010,
            Error::ConstraintClose => 2011,
            Error::ConstraintAddress => 2012,
            Error::ConstraintZero => 2013,
            Error::ConstraintTokenMint => 2014,
            Error::ConstraintTokenOwner => 2015,
            Error::ConstraintMintMintAuthority => 2016,
            Error::ConstraintMintFreezeAuthority => 2017,
            Error::ConstraintMintDecimals => 2018,
            Error::ConstraintSpace => 2019,
            Error::RequireViolated => 2500,
            Error::RequireEqViolated => 2501,
            Error::RequireKeysEqViolated => 2502,
            Error::RequireNeqViolated => 2503,
            Error::RequireKeysNeqViolated => 2504,
            Error::RequireGtViolated => 2505,
            Error::RequireGteViolated => 2506,
            Error::AccountDiscriminatorAlreadySet => 3000,
            Error::AccountDiscriminatorNotFound => 3001,
            Error::AccountDiscriminatorMismatch => 3002,
            Error::AccountDidNotDeserialize => 3003,
            Error::AccountDidNotSerialize => 3004,
            Error::AccountNotEnoughKeys => 3005,
            Error::AccountNotMutable => 3006,
            Error::AccountOwnedByWrongProgram => 3007,
            Error::InvalidProgramId => 3008,
            Error::InvalidProgramExecutable => 3009,
            Error::AccountNotSigner => 3010,
            Error::AccountNotSystemOwned => 3011,
            Error::AccountNotInitialized => 3012,
            Error::AccountNotProgramData => 3013,
            Error::AccountNotAssociatedTokenAccount => 3014,
            Error::AccountSysvarMismatch => 3015,
            Error::AccountReallocExceedsLimit => 3016,
            Error::AccountDuplicateReallocs => 3017,
            Error::StateInvalidAddress => 4000,
            Error::DeclaredProgramIdMismatch => 4100,
            Error::Deprecated => 5000,
            Error::StdIo => 9999,
            Error::Generic => 9999,
        }
    }

    /// The message of the error, as text.
    pub open spec fn text(self) -> Seq<char> {
        match self {
            Error::InstructionMissing => "8 byte instruction identifier not provided"@,
            Error::InstructionFallbackNotFound => "Fallback functions are not supported"@,
            Error::InstructionDidNotDeserialize => "The program could not deserialize the given instruction"@,
            Error::InstructionDidNotSerialize => "The program could not serialize the given instruction"@,
            Error::IdlInstructionStub => "The program was compiled without idl instructions"@,
            Error::IdlInstructionInvalidProgram => "Invalid program given to the IDL instruction"@,
            Error::ConstraintMut => "A mut constraint was violated"@,
            Error::ConstraintHasOne => "A has one constraint was violated"@,
            Error::ConstraintSigner => "A signer constraint was violated"@,
            Error::ConstraintRaw => "A raw constraint was violated"@,
            Error::ConstraintOwner => "An owner constraint was violated"@,
            Error::ConstraintRentExempt => "A rent exemption constraint was violated"@,
            Error::ConstraintSeeds => "A seeds constraint was violated"@,
            Error::ConstraintExecutable => "An executable constraint was violated"@,
            Error::ConstraintState => "A state constraint was violated"@,
            Error::ConstraintAssociated => "An associated constraint was violated"@,
            Error::ConstraintAssociatedInit => "An associated init constraint was violated"@,
            Error::ConstraintClose => "A close constraint was violated"@,
            Error::ConstraintAddress => "An address constraint was violated"@,
            Error::ConstraintZero => "Expected zero account discriminant"@,
            Error::ConstraintTokenMint => "A token mint constraint was violated"@,
            Error::ConstraintTokenOwner => "A token owner constraint was violated"@,
            Error::ConstraintMintMintAuthority => "A mint mint authority constraint was violated"@,
            Error::ConstraintMintFreezeAuthority => "A mint freeze authority constraint was violated"@,
            Error::ConstraintMintDecimals => "A mint decimals constraint was violated"@,
            Error::ConstraintSpace => "A space constraint was violated"@,
            Error::RequireViolated => "A require expression was violated"@,
            Error::RequireEqViolated => "A require_eq expression was violated"@,
            Error::RequireKeysEqViolated => "A require_keys_eq expression was violated"@,
            Error::RequireNeqViolated => "A require_neq expression was violated"@,
            Error::RequireKeysNeqViolated => "A require_keys_neq expression was violated"@,
            Error::RequireGtViolated => "A require_gt expression was violated"@,
            Error::RequireGteViolated => "A require_gte expression was violated"@,
            Error::AccountDiscriminatorAlreadySet => "The account discriminator was already set on this account"@,
            Error::AccountDiscriminatorNotFound => "No 8 byte discriminator was found on the account"@,
            Error::AccountDiscriminatorMismatch => "8 byte discriminator did not match what was expected"@,
            Error::AccountDidNotDeserialize => "Failed to deserialize the account"@,
            Error::AccountDidNotSerialize => "Failed to serialize the account"@,
            Error::AccountNotEnoughKeys => "Not enough account keys given to the instruction"@,
            Error::AccountNotMutable => "The given account is not mutable"@,
            Error::AccountOwnedByWrongProgram => "The given account is owned by a different program than expected"@,
            Error::InvalidProgramId => "Program ID was not as expected"@,
            Error::InvalidProgramExecutable => "Program account is not executable"@,
            Error::AccountNotSigner => "The given account did not sign"@,
            Error::AccountNotSystemOwned => "The given account is not owned by the system program"@,
            Error::AccountNotInitialized => "The program expected this account to be already initialized"@,
            Error::AccountNotProgramData => "The given account is not a program data account"@,
            Error::AccountNotAssociatedTokenAccount => "The given account is not the associated token account"@,
            Error::AccountSysvarMismatch => "The given public key does not match the required sysvar"@,
            Error::AccountReallocExceedsLimit => "The account reallocation exceeds the MAX_PERMITTED_DATA_INCREASE limit"@,
            Error::AccountDuplicateReallocs => "The account was duplicated for more than one reallocation"@,
            Error::StateInvalidAddress => "The given state account does not have the correct address"@,
            Error::DeclaredProgramIdMismatch => "The declared program id does not match the actual program id"@,
            Error::Deprecated => "The API being used is deprecated and should no longer be used"@,
            Error::StdIo => "Generic rust error"@,
            Error::Generic => "Generic rust error"@,
        }
    }

    /// The number of the error.
    pub fn code(&self) -> (c: u32)
        ensures
            c == self.code_of(),
    {
        match self {
            Error::InstructionMissing => 100,
            Error::InstructionFallbackNotFound => 101,
            Error::InstructionDidNotDeserialize => 102,
            Error::InstructionDidNotSerialize => 103,
            Error::IdlInstructionStub => 1000,
            Error::IdlInstructionInvalidProgram => 1001,
            Error::ConstraintMut => 2000,
            Error::ConstraintHasOne => 2001,
            Error::ConstraintSigner => 2002,
            Error::ConstraintRaw => 2003,
            Error::ConstraintOwner => 2004,
            Error::ConstraintRentExempt => 2005,
            Error::ConstraintSeeds => 2006,
            Error::ConstraintExecutable => 2007,
            Error::ConstraintState => 2008,
            Error::ConstraintAssociated => 2009,
            Error::ConstraintAssociatedInit => 2010,
            Error::ConstraintClose => 2011,
            Error::ConstraintAddress => 2012,
            Error::ConstraintZero => 2013,
            Error::ConstraintTokenMint => 2014,
            Error::ConstraintTokenOwner => 2015,
            Error::ConstraintMintMintAuthority => 2016,
            Error::ConstraintMintFreezeAuthority => 2017,
            Error::ConstraintMintDecimals => 2018,
            Error::ConstraintSpace => 2019,
            Error::RequireViolated => 2500,
            Error::RequireEqViolated => 2501,
            Error::RequireKeysEqViolated => 2502,
            Error::RequireNeqViolated => 2503,
            Error::RequireKeysNeqViolated => 2504,
            Error::RequireGtViolated => 2505,
            Error::RequireGteViolated => 2506,
            Error::AccountDiscriminatorAlreadySet => 3000,
            Error::AccountDiscriminatorNotFound => 3001,
            Error::AccountDiscriminatorMismatch => 3002,
            Error::AccountDidNotDeserialize => 3003,
            Error::AccountDidNotSerialize => 3004,
            Error::AccountNotEnoughKeys => 3005,
            Error::AccountNotMutable => 3006,
            Error::AccountOwnedByWrongProgram => 3007,
            Error::InvalidProgramId => 3008,
            Error::InvalidProgramExecutable => 3009,
            Error::AccountNotSigner => 3010,
            Error::AccountNotSystemOwned => 3011,
            Error::AccountNotInitialized => 3012,
            Error::AccountNotProgramData => 3013,
            Error::AccountNotAssociatedTokenAccount => 3014,
            Error::AccountSysvarMismatch => 3015,
            Error::AccountReallocExceedsLimit => 3016,
            Error::AccountDuplicateReallocs => 3017,
            Error::StateInvalidAddress => 4000,
            Error::DeclaredProgramIdMismatch => 4100,
            Error::Deprecated => 5000,
            Error::StdIo => 9999,
            Error::Generic => 9999,
        }
    }

    /// The message of the error.
    pub fn message(&self) -> (m: String)
        ensures
            m@ == self.text(),
    {
        match self {
            Error::InstructionMissing => String::from_str("8 byte instruction identifier not provided"),
            Error::InstructionFallbackNotFound => String::from_str("Fallback functions are not supported"),
            Error::InstructionDidNotDeserialize => String::from_str("The program could not deserialize the given instruction"),
            Error::InstructionDidNotSerialize => String::from_str("The program could not serialize the given instruction"),
            Error::IdlInstructionStub => String::from_str("The program was compiled without idl instructions"),
            Error::IdlInstructionInvalidProgram => String::from_str("Invalid program given to the IDL instruction"),
            Error::ConstraintMut => String::from_str("A mut constraint was violated"),
            Error::ConstraintHasOne => String::from_str("A has one constraint was violated"),
            Error::ConstraintSigner => String::from_str("A signer constraint was violated"),
            Error::ConstraintRaw => String::from_str("A raw constraint was violated"),
            Error::ConstraintOwner => String::from_str("An owner constraint was violated"),
            Error::ConstraintRentExempt => String::from_str("A rent exemption constraint was violated"),
            Error::ConstraintSeeds => String::from_str("A seeds constraint was violated"),
            Error::ConstraintExecutable => String::from_str("An executable constraint was violated"),
            Error::ConstraintState => String::from_str("A state constraint was violated"),
            Error::ConstraintAssociated => String::from_str("An associated constraint was violated"),
            Error::ConstraintAssociatedInit => String::from_str("An associated init constraint was violated"),
            Error::ConstraintClose => String::from_str("A close constraint was violated"),
            Error::ConstraintAddress => String::from_str("An address constraint was violated"),
            Error::ConstraintZero => String::from_str("Expected zero account discriminant"),
            Error::ConstraintTokenMint => String::from_str("A token mint constraint was violated"),
            Error::ConstraintTokenOwner => String::from_str("A token owner constraint was violated"),
            Error::ConstraintMintMintAuthority => String::from_str("A mint mint authority constraint was violated"),
            Error::ConstraintMintFreezeAuthority => String::from_str("A mint freeze authority constraint was violated"),
            Error::ConstraintMintDecimals => String::from_str("A mint decimals constraint was violated"),
            Error::ConstraintSpace => String::from_str("A space constraint was violated"),
            Error::RequireViolated => String::from_str("A require expression was violated"),
            Error::RequireEqViolated => String::from_str("A require_eq expression was violated"),
            Error::RequireKeysEqViolated => String::from_str("A require_keys_eq expression was violated"),
            Error::RequireNeqViolated => String::from_str("A require_neq expression was violated"),
            Error::RequireKeysNeqViolated => String::from_str("A require_keys_neq expression was violated"),
            Error::RequireGtViolated => String::from_str("A require_gt expression was violated"),
            Error::RequireGteViolated => String::from_str("A require_gte expression was violated"),
            Error::AccountDiscriminatorAlreadySet => String::from_str("The account discriminator was already set on this account"),
            Error::AccountDiscriminatorNotFound => String::from_str("No 8 byte discriminator was found on the account"),
            Error::AccountDiscriminatorMismatch => String::from_str("8 byte discriminator did not match what was expected"),
            Error::AccountDidNotDeserialize => String::from_str("Failed to deserialize the account"),
            Error::AccountDidNotSerialize => String::from_str("Failed to serialize the account"),
            Error::AccountNotEnoughKeys => String::from_str("Not enough account keys given to the instruction"),
            Error::AccountNotMutable => String::from_str("The given account is not mutable"),
            Error::AccountOwnedByWrongProgram => String::from_str("The given account is owned by a different program than expected"),
            Error::InvalidProgramId => String::from_str("Program ID was not as expected"),
            Error::InvalidProgramExecutable => String::from_str("Program account is not executable"),
            Error::AccountNotSigner => String::from_str("The given account did not sign"),
            Error::AccountNotSystemOwned => String::from_str("The given account is not owned by the system program"),
            Error::AccountNotInitialized => String::from_str("The program expected this account to be already initialized"),
            Error::AccountNotProgramData => String::from_str("The given account is not a program data account"),
            Error::AccountNotAssociatedTokenAccount => String::from_str("The given account is not the associated token account"),
            Error::AccountSysvarMismatch => String::from_str("The given public key does not match the required sysvar"),
            Error::AccountReallocExceedsLimit => String::from_str("The account reallocation exceeds the MAX_PERMITTED_DATA_INCREASE limit"),
            Error::AccountDuplicateReallocs => String::from_str("The account was duplicated for more than one reallocation"),
            Error::StateInvalidAddress => String::from_str("The given state account does not have the correct address"),
            Error::DeclaredProgramIdMismatch => String::from_str("The declared program id does not match the actual program id"),
            Error::Deprecated => String::from_str("The API being used is deprecated and should no longer be used"),
            Error::StdIo => String::from_str("Generic rust error"),
            Error::Generic => String::from_str("Generic rust error"),
        }
    }
}

} // verus!
