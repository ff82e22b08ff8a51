use vstd::prelude::*;

verus! {

/// The reasons for which an operation is refused. A refused operation
/// leaves every record it was handed unchanged.
#[derive(Clone, Copy, Debug, PartialEq, Eq, Structural)]
pub enum ErrorCode {
    /// The caller is not the expected identity, or not a member.
    AuthenticationError,
    /// A one-time operation was run again.
    AlreadyExecuted,
    /// The protocol is paused.
    ContractPause,
    NotInProjectStage,
    NotInVotingStage,
    NotInExecuteStage,
    NotInDonateStage,
    NotInDistributeStage,
    /// A community was created with too few members.
    InsufficientNumber,
    /// A vote did not start with a recognised character.
    InvalidChar,
    /// A project did not pass its vote, or was never published to the pool.
    NotPublish,
    /// A withdrawal asked for at least the donated amount.
    InsufficientError,
    /// Distribution is closed.
    NotOpenedYet,
}

} // verus!
