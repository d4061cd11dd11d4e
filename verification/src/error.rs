//! The error taxonomy of the ledger: authorization errors, data-integrity
//! errors, and external-call failures.  Every error is fatal for the
//! instruction that raised it; nothing is retried.

use vstd::prelude::*;

verus! {

/// Why an instruction was rejected.
#[derive(Clone, Copy, Debug, PartialEq, Eq, Structural)]
pub enum HeroError {
    /// The caller did not sign the transaction.
    MissingRequiredSignature,
    /// The repository account is not owned by this program.
    IncorrectProgramId,
    /// The presented holder does not match the ownership oracle's answer.
    InvalidArgument,
    /// The stored asset key does not match the asset the instruction presented.
    InvalidNFTKey,
    /// The instruction bytes carry an unknown tag or malformed arguments.
    InvalidInstruction,
    /// The slot id points past the end of the repository buffer.
    SlotOutOfRange,
    /// An externally supplied record (token holding, metadata, repository
    /// slot) is malformed.
    InvalidAccountData,
    /// An external service rejected a delegate, transfer, payment or
    /// metadata request; the whole instruction is aborted.
    ExternalCallFailure,
}

impl HeroError {
    /// A short description, for hosts that log rejections.
    pub fn describe(&self) -> (r: &'static str) {
        match self {
            HeroError::MissingRequiredSignature => "missing required signature",
            HeroError::IncorrectProgramId => "repository not owned by this program",
            HeroError::InvalidArgument => "holder does not match ownership oracle",
            HeroError::InvalidNFTKey => "stored asset key mismatch",
            HeroError::InvalidInstruction => "malformed instruction",
            HeroError::SlotOutOfRange => "slot id out of range",
            HeroError::InvalidAccountData => "malformed external record",
            HeroError::ExternalCallFailure => "external call failed",
        }
    }
}

} // verus!
