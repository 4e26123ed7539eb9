//! Winner determination: during the five-day contention window after a
//! challenge ends, any enrolled participant may claim the winner
//! position; a later claimant replaces the current winner unless the
//! current winner's streak is strictly greater.

use vstd::prelude::*;
use vstd::bytes::spec_u32_from_le_bytes;
use vstd::slice::slice_index_get;
use crate::accounts::{AccountView, DerivedPda, is_empty_pubkey, pubkey_eq, pubkey_is_empty};
use crate::codec::read_u32_le;
use crate::constants::FIVE_DAYS;
use crate::custom_errors::{ProgramError, ScreenWarErrors};
use crate::state::{Challenge, User};

verus! {

/// The winner-claim instruction: resolved accounts plus decoded payload.
pub struct ClaimWinnerPosition {
    pub accounts: ClaimWinnerPositionAccounts,
    pub instruction_data: ClaimWinnerPositionInstructionData,
}

/// The resolved accounts of a winner claim: the signing participant,
/// the challenge record and the participant's own record.
pub struct ClaimWinnerPositionAccounts {
    pub user: AccountView,
    pub challenge: AccountView,
    pub user_pda: AccountView,
}

/// The winner-claim payload: the id of the contested challenge.
#[derive(Clone, Copy, Debug, PartialEq, Eq)]
pub struct ClaimWinnerPositionInstructionData {
    pub challenge_id: u32,
}

/// The decoded winner-claim payload: 4 bytes of challenge id,
/// little-endian.
pub open spec fn spec_parse_claim_winner_position(payload: Seq<u8>) -> Result<
    ClaimWinnerPositionInstructionData,
    ProgramError,
> {
    if payload.len() != 4 {
        Err(ProgramError::InvalidInstructionData)
    } else {
        Ok(ClaimWinnerPositionInstructionData { challenge_id: spec_u32_from_le_bytes(payload) })
    }
}

impl ClaimWinnerPositionAccounts {
    /// Resolves and authorizes the accounts: exactly four are expected
    /// (participant, challenge, participant record, clock); the
    /// participant must have signed and their record must stand at its
    /// derived address.
    pub fn try_from(accounts: &[AccountView], user_pda_derived: &DerivedPda) -> (r: Result<
        ClaimWinnerPositionAccounts,
        ProgramError,
    >)
        ensures
            ({
                let n_ok = accounts@.len() == 4;
                let signer_ok = n_ok && accounts@[0].is_signer;
                let upda_ok = n_ok && accounts@[2].key@ == user_pda_derived.key@;
                &&& (r is Ok <==> n_ok && signer_ok && upda_ok)
                &&& (!n_ok ==> r == Err::<ClaimWinnerPositionAccounts, ProgramError>(
                    ProgramError::NotEnoughAccountKeys,
                ))
                &&& (n_ok && !signer_ok ==> r == Err::<ClaimWinnerPositionAccounts, ProgramError>(
                    ProgramError::Custom(ScreenWarErrors::NotSigner),
                ))
                &&& (signer_ok && !upda_ok ==> r == Err::<ClaimWinnerPositionAccounts, ProgramError>(
                    ProgramError::Custom(ScreenWarErrors::InvalidUserPDA),
                ))
                &&& (r is Ok ==> r->Ok_0 == (ClaimWinnerPositionAccounts {
                    user: accounts@[0],
                    challenge: accounts@[1],
                    user_pda: accounts@[2],
                }))
            }),
    {
        if accounts.len() != 4 {
            return Err(ProgramError::NotEnoughAccountKeys);
        }
        let user = *slice_index_get(accounts, 0);
        let challenge = *slice_index_get(accounts, 1);
        let user_pda = *slice_index_get(accounts, 2);

        if !user.is_signer {
            return Err(ProgramError::Custom(ScreenWarErrors::NotSigner));
        }
        if !pubkey_eq(&user_pda.key, &user_pda_derived.key) {
            return Err(ProgramError::Custom(ScreenWarErrors::InvalidUserPDA));
        }
        Ok(ClaimWinnerPositionAccounts { user, challenge, user_pda })
    }
}

impl ClaimWinnerPositionInstructionData {
    /// Decodes the fixed-width winner-claim payload.
    pub fn try_from(data: &[u8]) -> (r: Result<ClaimWinnerPositionInstructionData, ProgramError>)
        ensures
            r == spec_parse_claim_winner_position(data@),
    {
        if data.len() != 4 {
            return Err(ProgramError::InvalidInstructionData);
        }
        let challenge_id = read_u32_le(data, 0);
        proof {
            assert(data@.subrange(0, 4) =~= data@);
        }
        Ok(ClaimWinnerPositionInstructionData { challenge_id })
    }
}

impl ClaimWinnerPosition {
    /// Resolves accounts, decodes the payload, and checks that the
    /// challenge record stands at the address derived from the payload's
    /// challenge id.
    pub fn try_from(
        accounts: &[AccountView],
        data: &[u8],
        user_pda_derived: &DerivedPda,
        challenge_derived: &DerivedPda,
    ) -> (r: Result<ClaimWinnerPosition, ProgramError>)
        ensures
            r is Ok ==> ({
                let s = r->Ok_0;
                &&& accounts@.len() == 4
                &&& s.accounts.user == accounts@[0]
                &&& s.accounts.challenge == accounts@[1]
                &&& s.accounts.user_pda == accounts@[2]
                &&& s.accounts.user.is_signer
                &&& s.accounts.user_pda.key@ == user_pda_derived.key@
                &&& s.accounts.challenge.key@ == challenge_derived.key@
                &&& Ok::<ClaimWinnerPositionInstructionData, ProgramError>(s.instruction_data)
                    == spec_parse_claim_winner_position(data@)
            }),
            r is Err ==> (accounts@.len() != 4 || !accounts@[0].is_signer || accounts@[2].key@
                != user_pda_derived.key@ || accounts@[1].key@ != challenge_derived.key@
                || data@.len() != 4),
    {
        let resolved = match ClaimWinnerPositionAccounts::try_from(accounts, user_pda_derived) {
            Ok(a) => a,
            Err(e) => {
                return Err(e);
            },
        };
        let instruction_data = match ClaimWinnerPositionInstructionData::try_from(data) {
            Ok(d) => d,
            Err(e) => {
                return Err(e);
            },
        };
        if !pubkey_eq(&resolved.challenge.key, &challenge_derived.key) {
            return Err(ProgramError::Custom(ScreenWarErrors::InvalidChallengePDA));
        }
        Ok(ClaimWinnerPosition { accounts: resolved, instruction_data })
    }

    /// The winner-determination transition. Within the contention window
    /// an enrolled caller becomes winner unconditionally when no winner
    /// is recorded yet, and otherwise replaces the current winner exactly
    /// when their streak is at least the recorded one: ties favor the
    /// most recent challenger. On any error the Challenge record is
    /// untouched.
    pub fn process(&self, challenge: &mut Challenge, user_pda: &User, now: i64) -> (r: Result<
        (),
        ProgramError,
    >)
        requires
            old(challenge).end + FIVE_DAYS <= i64::MAX,
        ensures
            ({
                let c = *old(challenge);
                let in_window = now >= c.end && now <= c.end + FIVE_DAYS;
                let enrolled = c.challenge_id == user_pda.challenge_id;
                let wins = is_empty_pubkey(c.winner) || c.winner_streak <= user_pda.streak;
                &&& (r is Ok <==> in_window && enrolled && wins)
                &&& (now < c.end ==> r == Err::<(), ProgramError>(
                    ProgramError::Custom(ScreenWarErrors::ChallengeNotEnded),
                ))
                &&& (now > c.end + FIVE_DAYS ==> r == Err::<(), ProgramError>(
                    ProgramError::Custom(ScreenWarErrors::ContentionExpired),
                ))
                &&& (in_window && !enrolled ==> r == Err::<(), ProgramError>(
                    ProgramError::Custom(ScreenWarErrors::NotEnrolled),
                ))
                &&& (in_window && enrolled && !wins ==> r == Err::<(), ProgramError>(
                    ProgramError::Custom(ScreenWarErrors::LowerStreak),
                ))
                &&& (r is Ok ==> *final(challenge) == (Challenge {
                    winner: user_pda.user,
                    winner_streak: user_pda.streak,
                    ..c
                }))
                &&& (r is Err ==> *final(challenge) == c)
            }),
    {
        match Self::validate_challenge_has_ended(now, challenge.end) {
            Ok(()) => {},
            Err(e) => {
                return Err(e);
            },
        }
        match Self::validate_reward_claiming_has_not_started(now, challenge.end) {
            Ok(()) => {},
            Err(e) => {
                return Err(e);
            },
        }
        match Self::validate_user_is_enrolled_in_challenge(
            challenge.challenge_id,
            user_pda.challenge_id,
        ) {
            Ok(()) => {},
            Err(e) => {
                return Err(e);
            },
        }

        if pubkey_is_empty(&challenge.winner) {
            match Self::write_winner(challenge, user_pda) {
                Ok(()) => {},
                Err(e) => {
                    return Err(e);
                },
            }
        } else {
            if challenge.winner_streak > user_pda.streak {
                return Err(ProgramError::Custom(ScreenWarErrors::LowerStreak));
            }
            match Self::write_winner(challenge, user_pda) {
                Ok(()) => {},
                Err(e) => {
                    return Err(e);
                },
            }
        }
        Ok(())
    }

    /// Rejects a winner claim while the challenge is still running.
    pub fn validate_challenge_has_ended(now: i64, end: i64) -> (r: Result<(), ProgramError>)
        ensures
            r is Ok <==> end <= now,
            r is Err ==> r->Err_0 == ProgramError::Custom(ScreenWarErrors::ChallengeNotEnded),
    {
        if end > now {
            return Err(ProgramError::Custom(ScreenWarErrors::ChallengeNotEnded));
        }
        Ok(())
    }

    /// Rejects a winner claim once the contention window has expired and
    /// reward claiming has become possible.
    pub fn validate_reward_claiming_has_not_started(now: i64, end: i64) -> (r: Result<
        (),
        ProgramError,
    >)
        requires
            end + FIVE_DAYS <= i64::MAX,
        ensures
            r is Ok <==> now <= end + FIVE_DAYS,
            r is Err ==> r->Err_0 == ProgramError::Custom(ScreenWarErrors::ContentionExpired),
    {
        if now > end + FIVE_DAYS {
            return Err(ProgramError::Custom(ScreenWarErrors::ContentionExpired));
        }
        Ok(())
    }

    /// Rejects a caller whose record is bound to another challenge.
    pub fn validate_user_is_enrolled_in_challenge(
        challenge_pda_id: u32,
        users_pda_challenge_id: u32,
    ) -> (r: Result<(), ProgramError>)
        ensures
            r is Ok <==> challenge_pda_id == users_pda_challenge_id,
            r is Err ==> r->Err_0 == ProgramError::Custom(ScreenWarErrors::NotEnrolled),
    {
        if challenge_pda_id != users_pda_challenge_id {
            return Err(ProgramError::Custom(ScreenWarErrors::NotEnrolled));
        }
        Ok(())
    }

    /// Copies the claimant's identity and streak into the record.
    pub fn write_winner(challenge: &mut Challenge, user_pda: &User) -> (r: Result<(), ProgramError>)
        ensures
            r is Ok,
            *final(challenge) == (Challenge {
                winner: user_pda.user,
                winner_streak: user_pda.streak,
                ..*old(challenge)
            }),
    {
        challenge.winner = user_pda.user;
        challenge.winner_streak = user_pda.streak;
        Ok(())
    }
}

} // verus!
