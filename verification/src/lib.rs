//! A deterministic ledger state machine for a staking-based accountability
//! game: participants lock value into a time-boxed challenge, check in
//! daily, and are slashed for missed days; after the window closes the
//! slashed pool is split between the best-streak participant, the creator
//! and the protocol treasury.
//!
//! This crate is the instruction-validation and state-transition core.
//! The hosting execution environment — clock, record creation, value
//! transfer, signature verification, address derivation — is a collaborator
//! that hands plain values in and carries the decided effects out.

use vstd::prelude::*;
use vstd::slice::slice_index_get;
use vstd::slice::slice_subrange;

pub mod accounts;
pub mod codec;
pub mod constants;
pub mod custom_errors;
pub mod instructions;
pub mod math;
pub mod mock_oracle;
pub mod state;

use crate::constants::ONE_WEEK;
use crate::custom_errors::ProgramError;
use crate::instructions::claim_winner_position::spec_parse_claim_winner_position;
use crate::instructions::claim_winner_position::ClaimWinnerPositionInstructionData;
use crate::instructions::create_challenge::spec_parse_create_challenge;
use crate::instructions::create_challenge::CreateChallengeInstructionData;
use crate::instructions::join_challenge::spec_parse_join_challenge;
use crate::instructions::join_challenge::JoinChallengeInstructionData;
use crate::instructions::rewards::spec_parse_claim_rewards;
use crate::instructions::rewards::ClaimRewardsInstructionData;
use crate::instructions::sync_lock::spec_parse_sync_lock;
use crate::instructions::sync_lock::SyncLockInstructionData;
use crate::instructions::take_profit::spec_parse_take_profit;
use crate::instructions::take_profit::TakeProfitInstructionData;
use crate::instructions::toggle_challenge_creation::spec_parse_toggle_challenge_creation;
use crate::instructions::toggle_challenge_creation::ToggleChallengeCreationInstructionData;
use crate::instructions::withdraw::spec_parse_withdraw;
use crate::instructions::withdraw::WithdrawInstructionData;

verus! {

/// One instruction, decoded from the wire: the opcode byte selected the
/// operation and the remaining bytes became its validated payload.
#[derive(Clone, Copy, Debug, PartialEq, Eq)]
pub enum DecodedInstruction {
    Initialize,
    CreateChallenge(CreateChallengeInstructionData),
    JoinChallenge(JoinChallengeInstructionData),
    Withdraw(WithdrawInstructionData),
    ClaimWinnerPosition(ClaimWinnerPositionInstructionData),
    ToggleChallengeCreation(ToggleChallengeCreationInstructionData),
    TakeProfit(TakeProfitInstructionData),
    ClaimWinnerReward(ClaimRewardsInstructionData),
    ClaimCreatorReward(ClaimRewardsInstructionData),
    SyncLock(SyncLockInstructionData),
}

/// The wire format: a one-byte opcode in front of a fixed-width
/// little-endian payload. An empty instruction, an unknown opcode or a
/// malformed payload is rejected as invalid instruction data; the
/// creation payload is additionally validated against the clock.
pub open spec fn spec_decode_instruction(data: Seq<u8>, now: i64) -> Result<
    DecodedInstruction,
    ProgramError,
> {
    if data.len() == 0 {
        Err(ProgramError::InvalidInstructionData)
    } else {
        let payload = data.subrange(1, data.len() as int);
        if data[0] == 0 {
            Ok(DecodedInstruction::Initialize)
        } else if data[0] == 1 {
            match spec_parse_create_challenge(payload, now) {
                Ok(d) => Ok(DecodedInstruction::CreateChallenge(d)),
                Err(e) => Err(e),
            }
        } else if data[0] == 2 {
            match spec_parse_join_challenge(payload) {
                Ok(d) => Ok(DecodedInstruction::JoinChallenge(d)),
                Err(e) => Err(e),
            }
        } else if data[0] == 3 {
            match spec_parse_withdraw(payload) {
                Ok(d) => Ok(DecodedInstruction::Withdraw(d)),
                Err(e) => Err(e),
            }
        } else if data[0] == 4 {
            match spec_parse_claim_winner_position(payload) {
                Ok(d) => Ok(DecodedInstruction::ClaimWinnerPosition(d)),
                Err(e) => Err(e),
            }
        } else if data[0] == 5 {
            match spec_parse_toggle_challenge_creation(payload) {
                Ok(d) => Ok(DecodedInstruction::ToggleChallengeCreation(d)),
                Err(e) => Err(e),
            }
        } else if data[0] == 6 {
            match spec_parse_take_profit(payload) {
                Ok(d) => Ok(DecodedInstruction::TakeProfit(d)),
                Err(e) => Err(e),
            }
        } else if data[0] == 7 {
            match spec_parse_claim_rewards(payload) {
                Ok(d) => Ok(DecodedInstruction::ClaimWinnerReward(d)),
                Err(e) => Err(e),
            }
        } else if data[0] == 8 {
            match spec_parse_claim_rewards(payload) {
                Ok(d) => Ok(DecodedInstruction::ClaimCreatorReward(d)),
                Err(e) => Err(e),
            }
        } else if data[0] == 9 {
            match spec_parse_sync_lock(payload) {
                Ok(d) => Ok(DecodedInstruction::SyncLock(d)),
                Err(e) => Err(e),
            }
        } else {
            Err(ProgramError::InvalidInstructionData)
        }
    }
}

/// The dispatcher's decode stage: routes the leading opcode byte to the
/// matching payload decoder. The host then resolves the named accounts
/// and runs the matching handler on the decoded values.
pub fn process_instruction(instruction_data: &[u8], now: i64) -> (r: Result<
    DecodedInstruction,
    ProgramError,
>)
    requires
        now + ONE_WEEK <= i64::MAX,
    ensures
        r == spec_decode_instruction(instruction_data@, now),
{
    let n = instruction_data.len();
    if n == 0 {
        return Err(ProgramError::InvalidInstructionData);
    }
    let opcode = *slice_index_get(instruction_data, 0);
    let payload = slice_subrange(instruction_data, 1, n);

    match opcode {
        0 => Ok(DecodedInstruction::Initialize),
        1 => match CreateChallengeInstructionData::try_from(payload, now) {
            Ok(d) => Ok(DecodedInstruction::CreateChallenge(d)),
            Err(e) => Err(e),
        },
        2 => match JoinChallengeInstructionData::try_from(payload) {
            Ok(d) => Ok(DecodedInstruction::JoinChallenge(d)),
            Err(e) => Err(e),
        },
        3 => match WithdrawInstructionData::try_from(payload) {
            Ok(d) => Ok(DecodedInstruction::Withdraw(d)),
            Err(e) => Err(e),
        },
        4 => match ClaimWinnerPositionInstructionData::try_from(payload) {
            Ok(d) => Ok(DecodedInstruction::ClaimWinnerPosition(d)),
            Err(e) => Err(e),
        },
        5 => match ToggleChallengeCreationInstructionData::try_from(payload) {
            Ok(d) => Ok(DecodedInstruction::ToggleChallengeCreation(d)),
            Err(e) => Err(e),
        },
        6 => match TakeProfitInstructionData::try_from(payload) {
            Ok(d) => Ok(DecodedInstruction::TakeProfit(d)),
            Err(e) => Err(e),
        },
        7 => match ClaimRewardsInstructionData::try_from(payload) {
            Ok(d) => Ok(DecodedInstruction::ClaimWinnerReward(d)),
            Err(e) => Err(e),
        },
        8 => match ClaimRewardsInstructionData::try_from(payload) {
            Ok(d) => Ok(DecodedInstruction::ClaimCreatorReward(d)),
            Err(e) => Err(e),
        },
        9 => match SyncLockInstructionData::try_from(payload) {
            Ok(d) => Ok(DecodedInstruction::SyncLock(d)),
            Err(e) => Err(e),
        },
        _ => Err(ProgramError::InvalidInstructionData),
    }
}

} // verus!
