//! Challenge creation: validates the requested window against the clock,
//! consumes the Global counter as the new challenge id, and builds the
//! new Challenge record with its fixed 21-day window.

use vstd::prelude::*;
use vstd::slice::slice_index_get;
use crate::accounts::{AccountView, DerivedPda, is_empty_pubkey, empty_pubkey, pubkey_eq};
use crate::codec::{read_i64_le, spec_i64_from_le_bytes};
use crate::constants::{ONE_DAY, ONE_WEEK, THREE_WEEKS, TWO_HOURS};
use crate::custom_errors::{ProgramError, ScreenWarErrors};
use crate::state::{Challenge, Global};

verus! {

/// The creation instruction: resolved accounts plus decoded payload.
pub struct CreateChallenge {
    pub accounts: CreateChallengeAccounts,
    pub instruction_data: CreateChallengeInstructionData,
}

/// The resolved accounts of a creation, with the Global counter value
/// consumed as the new challenge's id.
pub struct CreateChallengeAccounts {
    pub creator: AccountView,
    pub global_pda: AccountView,
    pub challenge_pda: AccountView,
    pub challenge_bump: u8,
    pub current_challenge_id: u32,
}

/// The creation payload: the requested start time and the configured
/// daily check-in window.
#[derive(Clone, Copy, Debug, PartialEq, Eq)]
pub struct CreateChallengeInstructionData {
    pub start_time: i64,
    pub daily_timer: i64,
}

/// The decoded and validated creation payload: 8 bytes of start time and
/// 8 bytes of daily timer, little-endian. The start must lie at least a
/// day and less than a week ahead of `now`, and the daily timer must
/// stay under two hours.
pub open spec fn spec_parse_create_challenge(payload: Seq<u8>, now: i64) -> Result<
    CreateChallengeInstructionData,
    ProgramError,
> {
    if payload.len() != 16 {
        Err(ProgramError::InvalidInstructionData)
    } else {
        let start_time = spec_i64_from_le_bytes(payload.subrange(0, 8));
        let daily_timer = spec_i64_from_le_bytes(payload.subrange(8, 16));
        if start_time < now + ONE_DAY {
            Err(ProgramError::Custom(ScreenWarErrors::ChallengeStartsTooSoon))
        } else if start_time >= now + ONE_WEEK {
            Err(ProgramError::Custom(ScreenWarErrors::ChallengeStartsTooFar))
        } else if daily_timer >= TWO_HOURS {
            Err(ProgramError::Custom(ScreenWarErrors::ChallengeExceedsTwoHours))
        } else {
            Ok(CreateChallengeInstructionData { start_time, daily_timer })
        }
    }
}

/// The counter law of a successful creation: the new record consumes the
/// pre-increment counter as its id and the counter advances by exactly
/// one.
pub open spec fn spec_creation_consumes_counter(
    g_before: Global,
    g_after: Global,
    c: Challenge,
) -> bool {
    &&& c.challenge_id == g_before.challenge_ids
    &&& g_after.challenge_ids == g_before.challenge_ids + 1
}

/// Counter monotonicity: creation is the only operation that moves the
/// counter, and it only ever advances it, so over any run of successful
/// creations the assigned ids strictly increase and never repeat.
pub proof fn lemma_challenge_ids_never_repeat(
    g0: Global,
    g1: Global,
    c1: Challenge,
    g2: Global,
    g3: Global,
    c2: Challenge,
)
    requires
        spec_creation_consumes_counter(g0, g1, c1),
        g1.challenge_ids <= g2.challenge_ids,
        spec_creation_consumes_counter(g2, g3, c2),
    ensures
        c2.challenge_id > c1.challenge_id,
        g3.challenge_ids > g1.challenge_ids > g0.challenge_ids,
{
}

impl CreateChallengeAccounts {
    /// Resolves and authorizes the accounts: exactly five are expected
    /// (creator, global, challenge, rent, system); the creator must have
    /// signed, both records must stand at their derived addresses, and
    /// challenge creation must not be paused. The Global counter value
    /// is snapshotted as the id the new challenge will consume.
    pub fn try_from(
        accounts: &[AccountView],
        global: &Global,
        global_derived: &DerivedPda,
        challenge_derived: &DerivedPda,
    ) -> (r: Result<CreateChallengeAccounts, ProgramError>)
        ensures
            ({
                let n_ok = accounts@.len() == 5;
                let signer_ok = n_ok && accounts@[0].is_signer;
                let global_ok = n_ok && accounts@[1].key@ == global_derived.key@;
                let challenge_ok = n_ok && accounts@[2].key@ == challenge_derived.key@;
                let unpaused = !global.challenge_creation_paused;
                &&& (r is Ok <==> n_ok && signer_ok && global_ok && challenge_ok && unpaused)
                &&& (!n_ok ==> r == Err::<CreateChallengeAccounts, ProgramError>(
                    ProgramError::NotEnoughAccountKeys,
                ))
                &&& (n_ok && !signer_ok ==> r == Err::<CreateChallengeAccounts, ProgramError>(
                    ProgramError::Custom(ScreenWarErrors::NotSigner),
                ))
                &&& (signer_ok && !global_ok ==> r == Err::<CreateChallengeAccounts, ProgramError>(
                    ProgramError::InvalidSeeds,
                ))
                &&& (signer_ok && global_ok && !challenge_ok ==> r == Err::<
                    CreateChallengeAccounts,
                    ProgramError,
                >(ProgramError::Custom(ScreenWarErrors::InvalidChallengePDA)))
                &&& (signer_ok && global_ok && challenge_ok && !unpaused ==> r == Err::<
                    CreateChallengeAccounts,
                    ProgramError,
                >(ProgramError::Custom(ScreenWarErrors::ChallengeCreationPaused)))
                &&& (r is Ok ==> r->Ok_0 == (CreateChallengeAccounts {
                    creator: accounts@[0],
                    global_pda: accounts@[1],
                    challenge_pda: accounts@[2],
                    challenge_bump: challenge_derived.bump,
                    current_challenge_id: global.challenge_ids,
                }))
            }),
    {
        if accounts.len() != 5 {
            return Err(ProgramError::NotEnoughAccountKeys);
        }
        let creator = *slice_index_get(accounts, 0);
        let global_pda = *slice_index_get(accounts, 1);
        let challenge_pda = *slice_index_get(accounts, 2);

        if !creator.is_signer {
            return Err(ProgramError::Custom(ScreenWarErrors::NotSigner));
        }
        if !pubkey_eq(&global_pda.key, &global_derived.key) {
            return Err(ProgramError::InvalidSeeds);
        }
        let current_challenge_id = global.challenge_ids;
        if !pubkey_eq(&challenge_pda.key, &challenge_derived.key) {
            return Err(ProgramError::Custom(ScreenWarErrors::InvalidChallengePDA));
        }
        if global.challenge_creation_paused {
            return Err(ProgramError::Custom(ScreenWarErrors::ChallengeCreationPaused));
        }
        Ok(CreateChallengeAccounts {
            creator,
            global_pda,
            challenge_pda,
            challenge_bump: challenge_derived.bump,
            current_challenge_id,
        })
    }
}

impl CreateChallengeInstructionData {
    /// Decodes the fixed-width creation payload and validates the
    /// requested window against the clock.
    pub fn try_from(data: &[u8], now: i64) -> (r: Result<CreateChallengeInstructionData, ProgramError>)
        requires
            now + ONE_WEEK <= i64::MAX,
        ensures
            r == spec_parse_create_challenge(data@, now),
    {
        if data.len() != 16 {
            return Err(ProgramError::InvalidInstructionData);
        }
        let start_time = read_i64_le(data, 0);
        let daily_timer = read_i64_le(data, 8);

        if start_time < now + ONE_DAY {
            return Err(ProgramError::Custom(ScreenWarErrors::ChallengeStartsTooSoon));
        }
        if start_time >= now + ONE_WEEK {
            return Err(ProgramError::Custom(ScreenWarErrors::ChallengeStartsTooFar));
        }
        if daily_timer >= TWO_HOURS {
            return Err(ProgramError::Custom(ScreenWarErrors::ChallengeExceedsTwoHours));
        }

        Ok(CreateChallengeInstructionData { start_time, daily_timer })
    }
}

impl CreateChallenge {
    /// Resolves accounts and decodes the validated payload.
    pub fn try_from(
        accounts: &[AccountView],
        data: &[u8],
        global: &Global,
        global_derived: &DerivedPda,
        challenge_derived: &DerivedPda,
        now: i64,
    ) -> (r: Result<CreateChallenge, ProgramError>)
        requires
            now + ONE_WEEK <= i64::MAX,
        ensures
            r is Ok ==> ({
                let s = r->Ok_0;
                &&& accounts@.len() == 5
                &&& s.accounts.creator == accounts@[0]
                &&& s.accounts.global_pda == accounts@[1]
                &&& s.accounts.challenge_pda == accounts@[2]
                &&& s.accounts.creator.is_signer
                &&& s.accounts.global_pda.key@ == global_derived.key@
                &&& s.accounts.challenge_pda.key@ == challenge_derived.key@
                &&& s.accounts.challenge_bump == challenge_derived.bump
                &&& s.accounts.current_challenge_id == global.challenge_ids
                &&& !global.challenge_creation_paused
                &&& Ok::<CreateChallengeInstructionData, ProgramError>(s.instruction_data)
                    == spec_parse_create_challenge(data@, now)
            }),
            r is Err ==> (accounts@.len() != 5 || !accounts@[0].is_signer || accounts@[1].key@
                != global_derived.key@ || accounts@[2].key@ != challenge_derived.key@
                || global.challenge_creation_paused || spec_parse_create_challenge(data@, now) is Err),
    {
        let resolved = match CreateChallengeAccounts::try_from(
            accounts,
            global,
            global_derived,
            challenge_derived,
        ) {
            Ok(a) => a,
            Err(e) => {
                return Err(e);
            },
        };
        let instruction_data = match CreateChallengeInstructionData::try_from(data, now) {
            Ok(d) => d,
            Err(e) => {
                return Err(e);
            },
        };
        Ok(CreateChallenge { accounts: resolved, instruction_data })
    }

    /// The creation transition: fixes `end` exactly 21 days after the
    /// start, builds the fresh record with the snapshotted counter value
    /// as its id, and advances the Global counter by exactly one. On any
    /// error the Global record is untouched.
    pub fn process(&self, global: &mut Global) -> (r: Result<Challenge, ProgramError>)
        ensures
            r is Ok <==> self.instruction_data.start_time + THREE_WEEKS <= i64::MAX
                && old(global).challenge_ids < u32::MAX,
            r is Err ==> r->Err_0 == ProgramError::ArithmeticOverflow && *final(global) == *old(
                global,
            ),
            r is Ok ==> ({
                let c = r->Ok_0;
                &&& *final(global) == (Global {
                    challenge_ids: (old(global).challenge_ids + 1) as u32,
                    ..*old(global)
                })
                &&& c.creator@ == self.accounts.creator.key@
                &&& c.challenge_id == self.accounts.current_challenge_id
                &&& c.daily_timer == self.instruction_data.daily_timer
                &&& c.start == self.instruction_data.start_time
                &&& c.end == self.instruction_data.start_time + THREE_WEEKS
                &&& c.wf()
                &&& c.total_slashed == 0
                &&& is_empty_pubkey(c.winner)
                &&& c.winner_streak == 0
                &&& !c.winner_has_claimed
                &&& !c.creator_has_claimed
                &&& c.total_participants == 0
                &&& c.bump == self.accounts.challenge_bump
                &&& (self.accounts.current_challenge_id == old(global).challenge_ids
                    ==> spec_creation_consumes_counter(*old(global), *final(global), c))
            }),
    {
        let end_time = match self.instruction_data.start_time.checked_add(THREE_WEEKS) {
            Some(v) => v,
            None => {
                return Err(ProgramError::ArithmeticOverflow);
            },
        };

        let new_ids = match global.challenge_ids.checked_add(1) {
            Some(v) => v,
            None => {
                return Err(ProgramError::ArithmeticOverflow);
            },
        };

        let challenge = Challenge {
            creator: self.accounts.creator.key,
            challenge_id: self.accounts.current_challenge_id,
            daily_timer: self.instruction_data.daily_timer,
            start: self.instruction_data.start_time,
            end: end_time,
            total_slashed: 0,
            winner: empty_pubkey(),
            winner_streak: 0,
            winner_has_claimed: false,
            creator_has_claimed: false,
            total_participants: 0,
            bump: self.accounts.challenge_bump,
        };

        global.challenge_ids = new_ids;

        Ok(challenge)
    }
}

} // verus!
