//! Values that the verification pipeline reports.
use vstd::prelude::*;

verus! {

/// How closely two bytecodes agree.
#[derive(Clone, Copy, Debug, PartialEq, Eq, Structural)]
pub enum MatchType {
    /// Byte-for-byte equal.
    Exact,
    /// Equal once compiler metadata (and, for creation code, constructor arguments) is masked.
    Partial,
    /// No agreement at any granularity.
    NoMatch,
}

/// Which of a contract's two bytecodes a result is about.
#[derive(Clone, Copy, Debug, PartialEq, Eq, Structural)]
pub enum BytecodeKind {
    Creation,
    Runtime,
}

/// One comparison outcome of a verification run.
#[derive(Clone, Copy, Debug, PartialEq, Eq, Structural)]
pub struct VerificationResult {
    pub kind: BytecodeKind,
    pub match_type: MatchType,
}

/// The reasons a verification run stops.
#[derive(Clone, Copy, Debug, PartialEq, Eq, Structural)]
pub enum VerifyError {
    /// The target address holds no code.
    NoBytecode,
    /// The declared contract name differs from the one the explorer reports.
    ContractNameMismatch,
    /// The number of supplied constructor values differs from the constructor's parameter count.
    ArgCountMismatch { expected: usize, got: usize },
    /// A constructor parameter type or value could not be ABI-encoded.
    AbiEncoding,
    /// Pre-encoded constructor arguments are not valid hex.
    InvalidHex,
    /// The local artifact still references unlinked libraries.
    UnlinkedBytecode,
    /// The creation code cannot be read out of the creation transaction.
    CreationCodeUnavailable,
    /// The creation transaction calls an address other than the deterministic deployer.
    NotCreationTransaction,
    /// The requested block is not given by number.
    InvalidBlock,
    /// The creation transaction carries no block number.
    MissingBlockNumber,
    /// A historical replay cannot fork before block zero.
    ReplayAtGenesis,
    /// The deterministic deployer did not return exactly one address.
    BadCallResult { len: usize },
    /// No account exists at the deployed address after replay.
    MissingDeployedAccount,
    /// The account at the deployed address holds no code after replay.
    MissingDeployedCode,
}

} // verus!
