//! Values shared by the executor's workflow: the on-chain address format and
//! the two state machines that the endpoint contracts report.
use vstd::prelude::*;

verus! {

/// An address as the Solidity ABI lays it out: 20 bytes.
pub type SolidityAddress = [u8; 20];

/// What `ULN.verifiable(header, payloadHash)` reports of a packet.
#[derive(Debug, Clone, Copy, PartialEq, Eq, Structural)]
pub enum VerificationState {
    Verifying,
    Verifiable,
    Verified,
}

/// What `endpoint.executable(origin, receiver)` reports of a packet.
#[derive(Debug, Clone, Copy, PartialEq, Eq, Structural)]
pub enum ExecutionState {
    NotExecutable,
    Executable,
    Executed,
}

/// What a committer does next, given a packet's verification state.
#[derive(Debug, Clone, Copy, PartialEq, Eq, Structural)]
pub enum CommitStep {
    /// Wait for more DVNs to sign the payload hash (`PayloadVerified` events).
    AwaitSignatures,
    /// Call `commitVerification(header, payloadHash)`.
    CommitVerification,
    /// The commit has already happened: the workflow ends.
    Done,
}

/// What an executor does next, given a packet's execution state.
#[derive(Debug, Clone, Copy, PartialEq, Eq, Structural)]
pub enum ExecutionStep {
    /// Wait (for commits or earlier nonces) and ask again.
    WaitAndRetry,
    /// Call the endpoint's `lzReceive` with the packet.
    Deliver,
    /// The packet has been executed: the executor is free.
    Done,
}

impl VerificationState {
    /// The committer's next step for this state.
    pub open spec fn spec_next_step(self) -> CommitStep {
        match self {
            VerificationState::Verifying => CommitStep::AwaitSignatures,
            VerificationState::Verifiable => CommitStep::CommitVerification,
            VerificationState::Verified => CommitStep::Done,
        }
    }

    /// Verifying: wait for signatures; Verifiable: commit; Verified: done.
    pub fn next_step(&self) -> (s: CommitStep)
        ensures
            s == self.spec_next_step(),
    {
        match self {
            VerificationState::Verifying => CommitStep::AwaitSignatures,
            VerificationState::Verifiable => CommitStep::CommitVerification,
            VerificationState::Verified => CommitStep::Done,
        }
    }
}

impl ExecutionState {
    /// The state that the `executable` call's first result stands for: `0`
    /// not executable, `1` executable; any other value, or a result that is
    /// no 32-bit integer (`None`), ends the executor's work on the packet.
    pub open spec fn spec_from_executable_result(code: Option<i128>) -> ExecutionState {
        match code {
            Some(0) => ExecutionState::NotExecutable,
            Some(1) => ExecutionState::Executable,
            _ => ExecutionState::Executed,
        }
    }

    /// Reads the `executable` call's first result, given as the integer it
    /// holds when it is an `int32` value.
    pub fn from_executable_result(code: Option<i128>) -> (s: ExecutionState)
        ensures
            s == Self::spec_from_executable_result(code),
    {
        match code {
            Some(0) => ExecutionState::NotExecutable,
            Some(1) => ExecutionState::Executable,
            _ => ExecutionState::Executed,
        }
    }

    /// The executor's next step for this state.
    pub open spec fn spec_next_step(self) -> ExecutionStep {
        match self {
            ExecutionState::NotExecutable => ExecutionStep::WaitAndRetry,
            ExecutionState::Executable => ExecutionStep::Deliver,
            ExecutionState::Executed => ExecutionStep::Done,
        }
    }

    /// NotExecutable: wait and ask again; Executable: deliver; Executed: done.
    pub fn next_step(&self) -> (s: ExecutionStep)
        ensures
            s == self.spec_next_step(),
    {
        match self {
            ExecutionState::NotExecutable => ExecutionStep::WaitAndRetry,
            ExecutionState::Executable => ExecutionStep::Deliver,
            ExecutionState::Executed => ExecutionStep::Done,
        }
    }
}

} // verus!
