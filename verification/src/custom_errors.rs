//! The error model of the ledger.
//!
//! Every handler fails fast: the first violated check aborts the whole
//! instruction and surfaces one of these errors to the caller, with no
//! state change of its own.

use vstd::prelude::*;

verus! {

/// Business-rule, temporal and arithmetic failures raised by the handlers.
///
/// The declaration order is significant: each variant's position is its
/// stable numeric code (see [`ScreenWarErrors::code`]), persisted by the
/// host as a custom program error.
#[derive(Clone, Copy, Debug, PartialEq, Eq)]
pub enum ScreenWarErrors {
    InvalidGlobalPDA,
    InvalidChallengePDA,
    InvalidUserPDA,
    InvalidPdaDataLen,
    ChallengeCreationPaused,
    ChallengeStartsTooSoon,
    ChallengeStartsTooFar,
    ChallengeExceedsTwoHours,
    JoinedLate,
    ContentionPhase,
    NotEnrolled,
    ChallengeNotEnded,
    ContentionExpired,
    LowerStreak,
    ChallengeStateAlreadySet,
    OverClaim,
    NotWinner,
    NotCreator,
    AlreadySynced,
    ChallengeNotStarted,
    ChallengeEnded,
    NotSigner,
    NotAdmin,
    IntegerBoundsExceeded,
    IntegerUnderflow,
    IntegerOverflow,
}

impl ScreenWarErrors {
    /// The numeric code of this error: its position in declaration order.
    pub open spec fn code_spec(&self) -> u32 {
        match self {
            ScreenWarErrors::InvalidGlobalPDA => 0,
            ScreenWarErrors::InvalidChallengePDA => 1,
            ScreenWarErrors::InvalidUserPDA => 2,
            ScreenWarErrors::InvalidPdaDataLen => 3,
            ScreenWarErrors::ChallengeCreationPaused => 4,
            ScreenWarErrors::ChallengeStartsTooSoon => 5,
            ScreenWarErrors::ChallengeStartsTooFar => 6,
            ScreenWarErrors::ChallengeExceedsTwoHours => 7,
            ScreenWarErrors::JoinedLate => 8,
            ScreenWarErrors::ContentionPhase => 9,
            ScreenWarErrors::NotEnrolled => 10,
            ScreenWarErrors::ChallengeNotEnded => 11,
            ScreenWarErrors::ContentionExpired => 12,
            ScreenWarErrors::LowerStreak => 13,
            ScreenWarErrors::ChallengeStateAlreadySet => 14,
            ScreenWarErrors::OverClaim => 15,
            ScreenWarErrors::NotWinner => 16,
            ScreenWarErrors::NotCreator => 17,
            ScreenWarErrors::AlreadySynced => 18,
            ScreenWarErrors::ChallengeNotStarted => 19,
            ScreenWarErrors::ChallengeEnded => 20,
            ScreenWarErrors::NotSigner => 21,
            ScreenWarErrors::NotAdmin => 22,
            ScreenWarErrors::IntegerBoundsExceeded => 23,
            ScreenWarErrors::IntegerUnderflow => 24,
            ScreenWarErrors::IntegerOverflow => 25,
        }
    }

    /// The numeric code of this error, for the host's custom-error encoding.
    pub fn code(&self) -> (c: u32)
        ensures
            c == self.code_spec(),
    {
        match self {
            ScreenWarErrors::InvalidGlobalPDA => 0,
            ScreenWarErrors::InvalidChallengePDA => 1,
            ScreenWarErrors::InvalidUserPDA => 2,
            ScreenWarErrors::InvalidPdaDataLen => 3,
            ScreenWarErrors::ChallengeCreationPaused => 4,
            ScreenWarErrors::ChallengeStartsTooSoon => 5,
            ScreenWarErrors::ChallengeStartsTooFar => 6,
            ScreenWarErrors::ChallengeExceedsTwoHours => 7,
            ScreenWarErrors::JoinedLate => 8,
            ScreenWarErrors::ContentionPhase => 9,
            ScreenWarErrors::NotEnrolled => 10,
            ScreenWarErrors::ChallengeNotEnded => 11,
            ScreenWarErrors::ContentionExpired => 12,
            ScreenWarErrors::LowerStreak => 13,
            ScreenWarErrors::ChallengeStateAlreadySet => 14,
            ScreenWarErrors::OverClaim => 15,
            ScreenWarErrors::NotWinner => 16,
            ScreenWarErrors::NotCreator => 17,
            ScreenWarErrors::AlreadySynced => 18,
            ScreenWarErrors::ChallengeNotStarted => 19,
            ScreenWarErrors::ChallengeEnded => 20,
            ScreenWarErrors::NotSigner => 21,
            ScreenWarErrors::NotAdmin => 22,
            ScreenWarErrors::IntegerBoundsExceeded => 23,
            ScreenWarErrors::IntegerUnderflow => 24,
            ScreenWarErrors::IntegerOverflow => 25,
        }
    }
}

/// The error type every handler returns.
///
/// The first five variants mirror the host's native protocol errors that
/// the engine raises itself; `Custom` carries a business-rule error.
#[derive(Clone, Copy, Debug, PartialEq, Eq)]
pub enum ProgramError {
    NotEnoughAccountKeys,
    InvalidInstructionData,
    InvalidAccountData,
    InvalidSeeds,
    ArithmeticOverflow,
    Custom(ScreenWarErrors),
}

impl From<ScreenWarErrors> for ProgramError {
    fn from(err: ScreenWarErrors) -> Self {
        ProgramError::Custom(err)
    }
}

impl vstd::std_specs::convert::FromSpecImpl<ScreenWarErrors> for ProgramError {
    open spec fn obeys_from_spec() -> bool {
        true
    }

    open spec fn from_spec(err: ScreenWarErrors) -> Self {
        ProgramError::Custom(err)
    }
}

} // verus!
