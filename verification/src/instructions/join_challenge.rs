//! Joining a challenge: valid only until the challenge starts; counts
//! the participant and builds their fresh User record with zero balance
//! and zero streak.

use vstd::prelude::*;
use vstd::bytes::spec_u32_from_le_bytes;
use vstd::slice::slice_index_get;
use crate::accounts::{AccountView, DerivedPda, pubkey_eq};
use crate::codec::read_u32_le;
use crate::custom_errors::{ProgramError, ScreenWarErrors};
use crate::state::{Challenge, User};

verus! {

/// The join instruction: resolved accounts plus decoded payload.
pub struct JoinChallenge {
    pub accounts: JoinChallengeAccounts,
    pub instruction_data: JoinChallengeInstructionData,
}

/// The resolved accounts of a join: the signing participant, the
/// challenge record and the participant record to be created.
pub struct JoinChallengeAccounts {
    pub user: AccountView,
    pub challenge: AccountView,
    pub user_pda: AccountView,
    pub user_pda_bump: u8,
}

/// The join payload: the id of the challenge to join.
#[derive(Clone, Copy, Debug, PartialEq, Eq)]
pub struct JoinChallengeInstructionData {
    pub challenge_id: u32,
}

/// The decoded join payload: 4 bytes of challenge id, little-endian.
pub open spec fn spec_parse_join_challenge(payload: Seq<u8>) -> Result<
    JoinChallengeInstructionData,
    ProgramError,
> {
    if payload.len() != 4 {
        Err(ProgramError::InvalidInstructionData)
    } else {
        Ok(JoinChallengeInstructionData { challenge_id: spec_u32_from_le_bytes(payload) })
    }
}

impl JoinChallengeAccounts {
    /// Resolves and authorizes the accounts: exactly five are expected
    /// (participant, challenge, participant record, rent, system); the
    /// participant must have signed and their record must stand at its
    /// derived address.
    pub fn try_from(accounts: &[AccountView], user_pda_derived: &DerivedPda) -> (r: Result<
        JoinChallengeAccounts,
        ProgramError,
    >)
        ensures
            ({
                let n_ok = accounts@.len() == 5;
                let signer_ok = n_ok && accounts@[0].is_signer;
                let upda_ok = n_ok && accounts@[2].key@ == user_pda_derived.key@;
                &&& (r is Ok <==> n_ok && signer_ok && upda_ok)
                &&& (!n_ok ==> r == Err::<JoinChallengeAccounts, ProgramError>(
                    ProgramError::NotEnoughAccountKeys,
                ))
                &&& (n_ok && !signer_ok ==> r == Err::<JoinChallengeAccounts, ProgramError>(
                    ProgramError::Custom(ScreenWarErrors::NotSigner),
                ))
                &&& (signer_ok && !upda_ok ==> r == Err::<JoinChallengeAccounts, ProgramError>(
                    ProgramError::Custom(ScreenWarErrors::InvalidUserPDA),
                ))
                &&& (r is Ok ==> r->Ok_0 == (JoinChallengeAccounts {
                    user: accounts@[0],
                    challenge: accounts@[1],
                    user_pda: accounts@[2],
                    user_pda_bump: user_pda_derived.bump,
                }))
            }),
    {
        if accounts.len() != 5 {
            return Err(ProgramError::NotEnoughAccountKeys);
        }
        let user = *slice_index_get(accounts, 0);
        let challenge = *slice_index_get(accounts, 1);
        let user_pda = *slice_index_get(accounts, 2);

        if !user.is_signer {
            return Err(ProgramError::Custom(ScreenWarErrors::NotSigner));
        }
        if !pubkey_eq(&user_pda.key, &user_pda_derived.key) {
            return Err(ProgramError::Custom(ScreenWarErrors::InvalidUserPDA));
        }
        Ok(JoinChallengeAccounts {
            user,
            challenge,
            user_pda,
            user_pda_bump: user_pda_derived.bump,
        })
    }
}

impl JoinChallengeInstructionData {
    /// Decodes the fixed-width join payload.
    pub fn try_from(data: &[u8]) -> (r: Result<JoinChallengeInstructionData, ProgramError>)
        ensures
            r == spec_parse_join_challenge(data@),
    {
        if data.len() != 4 {
            return Err(ProgramError::InvalidInstructionData);
        }
        let challenge_id = read_u32_le(data, 0);
        proof {
            assert(data@.subrange(0, 4) =~= data@);
        }
        Ok(JoinChallengeInstructionData { challenge_id })
    }
}

impl JoinChallenge {
    /// Resolves accounts, decodes the payload, and checks that the
    /// challenge record stands at the address derived from the payload's
    /// challenge id.
    pub fn try_from(
        accounts: &[AccountView],
        data: &[u8],
        user_pda_derived: &DerivedPda,
        challenge_derived: &DerivedPda,
    ) -> (r: Result<JoinChallenge, ProgramError>)
        ensures
            r is Ok ==> ({
                let s = r->Ok_0;
                &&& accounts@.len() == 5
                &&& s.accounts.user == accounts@[0]
                &&& s.accounts.challenge == accounts@[1]
                &&& s.accounts.user_pda == accounts@[2]
                &&& s.accounts.user.is_signer
                &&& s.accounts.user_pda.key@ == user_pda_derived.key@
                &&& s.accounts.user_pda_bump == user_pda_derived.bump
                &&& s.accounts.challenge.key@ == challenge_derived.key@
                &&& Ok::<JoinChallengeInstructionData, ProgramError>(s.instruction_data)
                    == spec_parse_join_challenge(data@)
            }),
            r is Err ==> (accounts@.len() != 5 || !accounts@[0].is_signer || accounts@[2].key@
                != user_pda_derived.key@ || accounts@[1].key@ != challenge_derived.key@
                || data@.len() != 4),
    {
        let resolved = match JoinChallengeAccounts::try_from(accounts, user_pda_derived) {
            Ok(a) => a,
            Err(e) => {
                return Err(e);
            },
        };
        let instruction_data = match JoinChallengeInstructionData::try_from(data) {
            Ok(d) => d,
            Err(e) => {
                return Err(e);
            },
        };
        if !pubkey_eq(&resolved.challenge.key, &challenge_derived.key) {
            return Err(ProgramError::Custom(ScreenWarErrors::InvalidChallengePDA));
        }
        Ok(JoinChallenge { accounts: resolved, instruction_data })
    }

    /// The join transition: succeeds exactly when the challenge has not
    /// started yet (and the participant count can still grow). It counts
    /// the participant and returns their fresh record, bound to this
    /// challenge with zero balance and zero streak; on any error the
    /// Challenge record is untouched.
    pub fn process(&self, challenge: &mut Challenge, now: i64) -> (r: Result<User, ProgramError>)
        ensures
            r is Ok <==> now <= old(challenge).start && old(challenge).total_participants
                < u32::MAX,
            now > old(challenge).start ==> r == Err::<User, ProgramError>(
                ProgramError::Custom(ScreenWarErrors::JoinedLate),
            ),
            now <= old(challenge).start && old(challenge).total_participants == u32::MAX ==> r
                == Err::<User, ProgramError>(ProgramError::ArithmeticOverflow),
            r is Err ==> *final(challenge) == *old(challenge),
            r is Ok ==> ({
                let u = r->Ok_0;
                &&& *final(challenge) == (Challenge {
                    total_participants: (old(challenge).total_participants + 1) as u32,
                    ..*old(challenge)
                })
                &&& u.user@ == self.accounts.user.key@
                &&& u.challenge_id == self.instruction_data.challenge_id
                &&& u.locked_balance == 0
                &&& u.streak == 0
                &&& u.bump == self.accounts.user_pda_bump
            }),
    {
        if now > challenge.start {
            return Err(ProgramError::Custom(ScreenWarErrors::JoinedLate));
        }

        let new_count = match challenge.total_participants.checked_add(1) {
            Some(v) => v,
            None => {
                return Err(ProgramError::ArithmeticOverflow);
            },
        };
        challenge.total_participants = new_count;

        Ok(User {
            user: self.accounts.user.key,
            challenge_id: self.instruction_data.challenge_id,
            locked_balance: 0,
            streak: 0,
            bump: self.accounts.user_pda_bump,
        })
    }
}

} // verus!
