//! Withdrawal: after the contention window closes, an enrolled
//! participant takes their remaining locked balance back from the
//! treasury and their record is reclaimed by the host.

use vstd::prelude::*;
use vstd::bytes::spec_u32_from_le_bytes;
use vstd::slice::slice_index_get;
use crate::accounts::{AccountView, DerivedPda, pubkey_eq};
use crate::codec::read_u32_le;
use crate::constants::FIVE_DAYS;
use crate::custom_errors::{ProgramError, ScreenWarErrors};
use crate::state::{Challenge, User};

verus! {

/// The withdraw instruction: resolved accounts plus decoded payload.
pub struct Withdraw {
    pub accounts: WithdrawAccounts,
    pub instruction_data: WithdrawInstructionData,
}

/// The resolved accounts of a withdrawal: the signing participant, the
/// global treasury record, the challenge record and the participant's
/// record.
pub struct WithdrawAccounts {
    pub user: AccountView,
    pub global: AccountView,
    pub challenge: AccountView,
    pub user_pda: AccountView,
    pub global_bump: u8,
}

/// The withdraw payload: the id of the challenge withdrawn from.
#[derive(Clone, Copy, Debug, PartialEq, Eq)]
pub struct WithdrawInstructionData {
    pub challenge_id: u32,
}

/// The decoded withdraw payload: 4 bytes of challenge id, little-endian.
pub open spec fn spec_parse_withdraw(payload: Seq<u8>) -> Result<
    WithdrawInstructionData,
    ProgramError,
> {
    if payload.len() != 4 {
        Err(ProgramError::InvalidInstructionData)
    } else {
        Ok(WithdrawInstructionData { challenge_id: spec_u32_from_le_bytes(payload) })
    }
}

impl WithdrawAccounts {
    /// Resolves and authorizes the accounts: exactly six are expected
    /// (participant, global, challenge, participant record, clock,
    /// system); the participant must have signed, and the participant
    /// and global records must stand at their derived addresses.
    pub fn try_from(
        accounts: &[AccountView],
        user_pda_derived: &DerivedPda,
        global_derived: &DerivedPda,
    ) -> (r: Result<WithdrawAccounts, ProgramError>)
        ensures
            ({
                let n_ok = accounts@.len() == 6;
                let signer_ok = n_ok && accounts@[0].is_signer;
                let upda_ok = n_ok && accounts@[3].key@ == user_pda_derived.key@;
                let global_ok = n_ok && accounts@[1].key@ == global_derived.key@;
                &&& (r is Ok <==> n_ok && signer_ok && upda_ok && global_ok)
                &&& (!n_ok ==> r == Err::<WithdrawAccounts, ProgramError>(
                    ProgramError::NotEnoughAccountKeys,
                ))
                &&& (n_ok && !signer_ok ==> r == Err::<WithdrawAccounts, ProgramError>(
                    ProgramError::Custom(ScreenWarErrors::NotSigner),
                ))
                &&& (signer_ok && !upda_ok ==> r == Err::<WithdrawAccounts, ProgramError>(
                    ProgramError::Custom(ScreenWarErrors::InvalidUserPDA),
                ))
                &&& (signer_ok && upda_ok && !global_ok ==> r == Err::<WithdrawAccounts, ProgramError>(
                    ProgramError::InvalidSeeds,
                ))
                &&& (r is Ok ==> r->Ok_0 == (WithdrawAccounts {
                    user: accounts@[0],
                    global: accounts@[1],
                    challenge: accounts@[2],
                    user_pda: accounts@[3],
                    global_bump: global_derived.bump,
                }))
            }),
    {
        if accounts.len() != 6 {
            return Err(ProgramError::NotEnoughAccountKeys);
        }
        let user = *slice_index_get(accounts, 0);
        let global = *slice_index_get(accounts, 1);
        let challenge = *slice_index_get(accounts, 2);
        let user_pda = *slice_index_get(accounts, 3);

        if !user.is_signer {
            return Err(ProgramError::Custom(ScreenWarErrors::NotSigner));
        }
        if !pubkey_eq(&user_pda.key, &user_pda_derived.key) {
            return Err(ProgramError::Custom(ScreenWarErrors::InvalidUserPDA));
        }
        if !pubkey_eq(&global.key, &global_derived.key) {
            return Err(ProgramError::InvalidSeeds);
        }
        Ok(WithdrawAccounts { user, global, challenge, user_pda, global_bump: global_derived.bump })
    }
}

impl WithdrawInstructionData {
    /// Decodes the fixed-width withdraw payload.
    pub fn try_from(data: &[u8]) -> (r: Result<WithdrawInstructionData, ProgramError>)
        ensures
            r == spec_parse_withdraw(data@),
    {
        if data.len() != 4 {
            return Err(ProgramError::InvalidInstructionData);
        }
        let challenge_id = read_u32_le(data, 0);
        proof {
            assert(data@.subrange(0, 4) =~= data@);
        }
        Ok(WithdrawInstructionData { challenge_id })
    }
}

impl Withdraw {
    /// Resolves accounts, decodes the payload, and checks that the
    /// challenge record stands at the address derived from the payload's
    /// challenge id.
    pub fn try_from(
        accounts: &[AccountView],
        data: &[u8],
        user_pda_derived: &DerivedPda,
        global_derived: &DerivedPda,
        challenge_derived: &DerivedPda,
    ) -> (r: Result<Withdraw, ProgramError>)
        ensures
            r is Ok ==> ({
                let s = r->Ok_0;
                &&& accounts@.len() == 6
                &&& s.accounts.user == accounts@[0]
                &&& s.accounts.global == accounts@[1]
                &&& s.accounts.challenge == accounts@[2]
                &&& s.accounts.user_pda == accounts@[3]
                &&& s.accounts.user.is_signer
                &&& s.accounts.user_pda.key@ == user_pda_derived.key@
                &&& s.accounts.global.key@ == global_derived.key@
                &&& s.accounts.challenge.key@ == challenge_derived.key@
                &&& Ok::<WithdrawInstructionData, ProgramError>(s.instruction_data)
                    == spec_parse_withdraw(data@)
            }),
            r is Err ==> (accounts@.len() != 6 || !accounts@[0].is_signer || accounts@[3].key@
                != user_pda_derived.key@ || accounts@[1].key@ != global_derived.key@
                || accounts@[2].key@ != challenge_derived.key@ || data@.len() != 4),
    {
        let resolved = match WithdrawAccounts::try_from(accounts, user_pda_derived, global_derived) {
            Ok(a) => a,
            Err(e) => {
                return Err(e);
            },
        };
        let instruction_data = match WithdrawInstructionData::try_from(data) {
            Ok(d) => d,
            Err(e) => {
                return Err(e);
            },
        };
        if !pubkey_eq(&resolved.challenge.key, &challenge_derived.key) {
            return Err(ProgramError::Custom(ScreenWarErrors::InvalidChallengePDA));
        }
        Ok(Withdraw { accounts: resolved, instruction_data })
    }

    /// The withdrawal decision: once the contention window is over, an
    /// enrolled participant is owed their whole remaining locked balance
    /// from the treasury, and the host then reclaims their record.
    pub fn process(&self, challenge: &Challenge, user_pda: &User, now: i64) -> (r: Result<
        u64,
        ProgramError,
    >)
        ensures
            ({
                let over = challenge.end + FIVE_DAYS <= i64::MAX && now > challenge.end + FIVE_DAYS;
                let enrolled = challenge.challenge_id == user_pda.challenge_id;
                &&& (r is Ok <==> over && enrolled)
                &&& (!over ==> r == Err::<u64, ProgramError>(
                    ProgramError::Custom(ScreenWarErrors::ContentionPhase),
                ))
                &&& (over && !enrolled ==> r == Err::<u64, ProgramError>(
                    ProgramError::Custom(ScreenWarErrors::NotEnrolled),
                ))
                &&& (r is Ok ==> r->Ok_0 == user_pda.locked_balance)
            }),
    {
        match Self::validate_contention_period_is_over(now, challenge.end) {
            Ok(()) => {},
            Err(e) => {
                return Err(e);
            },
        }
        match Self::validate_user_is_enrolled_in_challenge(
            challenge.challenge_id,
            user_pda.challenge_id,
        ) {
            Ok(()) => {},
            Err(e) => {
                return Err(e);
            },
        }
        Ok(user_pda.locked_balance)
    }

    /// Rejects a withdrawal while winner determination can still happen;
    /// a window end so late it cannot be represented never closes.
    pub fn validate_contention_period_is_over(now: i64, end: i64) -> (r: Result<(), ProgramError>)
        ensures
            r is Ok <==> end + FIVE_DAYS <= i64::MAX && now > end + FIVE_DAYS,
            r is Err ==> r->Err_0 == ProgramError::Custom(ScreenWarErrors::ContentionPhase),
    {
        let contention_period = match end.checked_add(FIVE_DAYS) {
            Some(v) => v,
            None => {
                return Err(ProgramError::Custom(ScreenWarErrors::ContentionPhase));
            },
        };
        if contention_period >= now {
            return Err(ProgramError::Custom(ScreenWarErrors::ContentionPhase));
        }
        Ok(())
    }

    /// Rejects a caller whose record is bound to another challenge.
    pub fn validate_user_is_enrolled_in_challenge(
        challenge_pda_id: u32,
        users_pda_challenge_id: u32,
    ) -> (r: Result<(), ProgramError>)
        ensures
            r is Ok <==> challenge_pda_id == users_pda_challenge_id,
            r is Err ==> r->Err_0 == ProgramError::Custom(ScreenWarErrors::NotEnrolled),
    {
        if challenge_pda_id != users_pda_challenge_id {
            return Err(ProgramError::Custom(ScreenWarErrors::NotEnrolled));
        }
        Ok(())
    }
}

} // verus!
