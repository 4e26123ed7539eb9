//! Reward and treasury settlement: after the contention window closes,
//! the winner and the creator each claim their fixed-point share of the
//! slashed pool, the protocol's residual share accrues to the treasury
//! exactly once, and each claimed identity is nulled so that the claim
//! path becomes unreachable a second time.

use vstd::prelude::*;
use vstd::arithmetic::div_mod::{lemma_div_pos_is_pos, lemma_fundamental_div_mod};
use vstd::slice::slice_index_get;
use crate::accounts::{AccountView, DerivedPda, Pubkey, empty_pubkey, is_empty_pubkey, pubkey_eq};
use crate::constants::{FIVE_DAYS, SCALE, SCALED_10_PERCENT, SCALED_50_PERCENT};
use crate::custom_errors::{ProgramError, ScreenWarErrors};
use crate::state::{Challenge, Global};

verus! {

/// The two reward-claim instructions share one shape: resolved accounts
/// plus the (empty) payload.
pub struct ClaimRewards {
    pub accounts: ClaimRewardsAccounts,
    pub instruction_data: ClaimRewardsInstructionData,
}

/// The resolved accounts of a reward claim: the signing claimant, the
/// challenge record and the global treasury record.
pub struct ClaimRewardsAccounts {
    pub user: AccountView,
    pub challenge: AccountView,
    pub global: AccountView,
    pub global_bump: u8,
}

/// The reward-claim payload carries no fields on the wire; the amount
/// slot exists for layout compatibility and decodes to zero.
#[derive(Clone, Copy, Debug, PartialEq, Eq)]
pub struct ClaimRewardsInstructionData {
    pub amount: u64,
}

/// The decoded reward-claim payload: both claim operations take an
/// empty payload, and anything else is malformed.
pub open spec fn spec_parse_claim_rewards(payload: Seq<u8>) -> Result<
    ClaimRewardsInstructionData,
    ProgramError,
> {
    if payload.len() != 0 {
        Err(ProgramError::InvalidInstructionData)
    } else {
        Ok(ClaimRewardsInstructionData { amount: 0 })
    }
}

/// The winner's share of a slashed pool: 50% at fixed-point scale,
/// rounded down.
pub open spec fn spec_winner_reward(total_slashed: u64) -> int {
    (SCALED_50_PERCENT * total_slashed) / (SCALE as int)
}

/// The creator's share of a slashed pool: 10% at fixed-point scale,
/// rounded down.
pub open spec fn spec_creator_reward(total_slashed: u64) -> int {
    (SCALED_10_PERCENT * total_slashed) / (SCALE as int)
}

/// The protocol's share of a slashed pool: whatever the winner and the
/// creator shares leave, rounding residue included.
pub open spec fn spec_protocol_profit(total_slashed: u64) -> int {
    total_slashed - spec_winner_reward(total_slashed) - spec_creator_reward(total_slashed)
}

/// Reward split conservation: for every pool the three shares are
/// non-negative and sum back to the pool exactly.
pub proof fn lemma_reward_split_conserves(total_slashed: u64)
    ensures
        spec_winner_reward(total_slashed) + spec_creator_reward(total_slashed)
            + spec_protocol_profit(total_slashed) == total_slashed,
        0 <= spec_winner_reward(total_slashed) <= total_slashed,
        0 <= spec_creator_reward(total_slashed) <= total_slashed,
        0 <= spec_protocol_profit(total_slashed),
{
    let t = total_slashed as int;
    let s = SCALE as int;
    let w = spec_winner_reward(total_slashed);
    let c = spec_creator_reward(total_slashed);
    lemma_div_pos_is_pos(500000 * t, s);
    lemma_div_pos_is_pos(100000 * t, s);
    lemma_fundamental_div_mod(500000 * t, s);
    lemma_fundamental_div_mod(100000 * t, s);
    assert(w * s <= 500000 * t);
    assert(c * s <= 100000 * t);
    assert((w + c) * s == w * s + c * s) by (nonlinear_arith);
    assert((w + c) * s <= 600000 * t);
    assert(w + c <= t) by {
        if w + c > t {
            assert((w + c) * s >= (t + 1) * s) by (nonlinear_arith)
                requires
                    w + c >= t + 1,
                    s > 0,
            ;
        }
    }
    assert(w <= t) by {
        if w > t {
            assert(w * s >= (t + 1) * s) by (nonlinear_arith)
                requires
                    w >= t + 1,
                    s > 0,
            ;
        }
    }
    assert(c <= t) by {
        if c > t {
            assert(c * s >= (t + 1) * s) by (nonlinear_arith)
                requires
                    c >= t + 1,
                    s > 0,
            ;
        }
    }
}

/// A winner claim goes through exactly when the caller is the recorded
/// (non-nulled only by content) winner and the contention window is
/// over.
pub open spec fn spec_winner_claim_allowed(c: Challenge, caller: Pubkey, now: i64) -> bool {
    &&& caller@ == c.winner@
    &&& c.end + FIVE_DAYS <= i64::MAX
    &&& now > c.end + FIVE_DAYS
}

/// A creator claim goes through exactly when the caller is the recorded
/// creator and the contention window is over.
pub open spec fn spec_creator_claim_allowed(c: Challenge, caller: Pubkey, now: i64) -> bool {
    &&& caller@ == c.creator@
    &&& c.end + FIVE_DAYS <= i64::MAX
    &&& now > c.end + FIVE_DAYS
}

/// The challenge record after a winner claim: the claimed flag is set
/// and the winner identity is nulled in the same step, and every other
/// field is untouched.
pub open spec fn spec_winner_claimed_challenge(c: Challenge, c2: Challenge) -> bool {
    &&& c2.winner_has_claimed
    &&& is_empty_pubkey(c2.winner)
    &&& c2.creator == c.creator
    &&& c2.challenge_id == c.challenge_id
    &&& c2.daily_timer == c.daily_timer
    &&& c2.start == c.start
    &&& c2.end == c.end
    &&& c2.total_slashed == c.total_slashed
    &&& c2.winner_streak == c.winner_streak
    &&& c2.creator_has_claimed == c.creator_has_claimed
    &&& c2.total_participants == c.total_participants
    &&& c2.bump == c.bump
}

/// The challenge record after a creator claim: symmetric to the
/// winner's, nulling the creator identity instead.
pub open spec fn spec_creator_claimed_challenge(c: Challenge, c2: Challenge) -> bool {
    &&& c2.creator_has_claimed
    &&& is_empty_pubkey(c2.creator)
    &&& c2.winner == c.winner
    &&& c2.challenge_id == c.challenge_id
    &&& c2.daily_timer == c.daily_timer
    &&& c2.start == c.start
    &&& c2.end == c.end
    &&& c2.total_slashed == c.total_slashed
    &&& c2.winner_streak == c.winner_streak
    &&& c2.winner_has_claimed == c.winner_has_claimed
    &&& c2.total_participants == c.total_participants
    &&& c2.bump == c.bump
}

/// The Global record after a claim: protocol profit accrues exactly
/// once, on whichever of the two claims happens first.
pub open spec fn spec_profit_accrued(g: Global, g2: Global, profit: int, other_claimed: bool) -> bool {
    if other_claimed {
        g2 == g
    } else {
        g2 == (Global { treasury_profits: (g.treasury_profits + profit) as u64, ..g })
    }
}

/// Double-claim prevention: a successful winner claim nulls the recorded
/// winner to the empty identity, and no real (non-empty) caller can ever
/// equal it, so every later winner claim on that challenge is rejected.
pub proof fn lemma_double_claim_prevented(c: Challenge, caller: Pubkey, now: i64)
    requires
        is_empty_pubkey(c.winner),
        !is_empty_pubkey(caller),
    ensures
        !spec_winner_claim_allowed(c, caller, now),
{
    if caller@ == c.winner@ {
        let i = choose|i: int| 0 <= i < 32 && caller[i] != 0;
        assert(caller@[i] == c.winner@[i]);
        assert(false);
    }
}

impl ClaimRewardsAccounts {
    /// Resolves and authorizes the accounts: exactly five are expected
    /// (claimant, challenge, treasury, clock, system); the claimant must
    /// have signed, and the treasury and challenge records must stand at
    /// their derived addresses.
    pub fn try_from(
        accounts: &[AccountView],
        global_derived: &DerivedPda,
        challenge_derived: &DerivedPda,
    ) -> (r: Result<ClaimRewardsAccounts, ProgramError>)
        ensures
            ({
                let n_ok = accounts@.len() == 5;
                let signer_ok = n_ok && accounts@[0].is_signer;
                let global_ok = n_ok && accounts@[2].key@ == global_derived.key@;
                let challenge_ok = n_ok && accounts@[1].key@ == challenge_derived.key@;
                &&& (r is Ok <==> n_ok && signer_ok && global_ok && challenge_ok)
                &&& (!n_ok ==> r == Err::<ClaimRewardsAccounts, ProgramError>(
                    ProgramError::NotEnoughAccountKeys,
                ))
                &&& (n_ok && !signer_ok ==> r == Err::<ClaimRewardsAccounts, ProgramError>(
                    ProgramError::Custom(ScreenWarErrors::NotSigner),
                ))
                &&& (signer_ok && !global_ok ==> r == Err::<ClaimRewardsAccounts, ProgramError>(
                    ProgramError::InvalidSeeds,
                ))
                &&& (signer_ok && global_ok && !challenge_ok ==> r == Err::<
                    ClaimRewardsAccounts,
                    ProgramError,
                >(ProgramError::Custom(ScreenWarErrors::InvalidChallengePDA)))
                &&& (r is Ok ==> r->Ok_0 == (ClaimRewardsAccounts {
                    user: accounts@[0],
                    challenge: accounts@[1],
                    global: accounts@[2],
                    global_bump: global_derived.bump,
                }))
            }),
    {
        if accounts.len() != 5 {
            return Err(ProgramError::NotEnoughAccountKeys);
        }
        let user = *slice_index_get(accounts, 0);
        let challenge = *slice_index_get(accounts, 1);
        let global = *slice_index_get(accounts, 2);

        if !user.is_signer {
            return Err(ProgramError::Custom(ScreenWarErrors::NotSigner));
        }
        if !pubkey_eq(&global.key, &global_derived.key) {
            return Err(ProgramError::InvalidSeeds);
        }
        if !pubkey_eq(&challenge.key, &challenge_derived.key) {
            return Err(ProgramError::Custom(ScreenWarErrors::InvalidChallengePDA));
        }
        Ok(ClaimRewardsAccounts { user, challenge, global, global_bump: global_derived.bump })
    }
}

impl ClaimRewardsInstructionData {
    /// Decodes the (empty) reward-claim payload.
    pub fn try_from(data: &[u8]) -> (r: Result<ClaimRewardsInstructionData, ProgramError>)
        ensures
            r == spec_parse_claim_rewards(data@),
    {
        if data.len() != 0 {
            return Err(ProgramError::InvalidInstructionData);
        }
        Ok(ClaimRewardsInstructionData { amount: 0 })
    }
}

impl ClaimRewards {
    /// Resolves accounts and decodes the payload.
    pub fn try_from(
        accounts: &[AccountView],
        data: &[u8],
        global_derived: &DerivedPda,
        challenge_derived: &DerivedPda,
    ) -> (r: Result<ClaimRewards, ProgramError>)
        ensures
            r is Ok ==> ({
                let s = r->Ok_0;
                &&& accounts@.len() == 5
                &&& s.accounts.user == accounts@[0]
                &&& s.accounts.challenge == accounts@[1]
                &&& s.accounts.global == accounts@[2]
                &&& s.accounts.user.is_signer
                &&& s.accounts.global.key@ == global_derived.key@
                &&& s.accounts.challenge.key@ == challenge_derived.key@
                &&& data@.len() == 0
            }),
            r is Err ==> (accounts@.len() != 5 || !accounts@[0].is_signer || accounts@[2].key@
                != global_derived.key@ || accounts@[1].key@ != challenge_derived.key@ || data@.len()
                != 0),
    {
        let resolved = match ClaimRewardsAccounts::try_from(
            accounts,
            global_derived,
            challenge_derived,
        ) {
            Ok(a) => a,
            Err(e) => {
                return Err(e);
            },
        };
        let instruction_data = match ClaimRewardsInstructionData::try_from(data) {
            Ok(d) => d,
            Err(e) => {
                return Err(e);
            },
        };
        Ok(ClaimRewards { accounts: resolved, instruction_data })
    }

    /// The winner's settlement transition. On success it returns the
    /// reward the host pays from the treasury and whether the record can
    /// now be reclaimed (the creator had already claimed); protocol
    /// profit accrues only on the first of the two claims. The winner
    /// identity is nulled, which is what makes a second claim
    /// unreachable. On any error both records are untouched.
    pub fn process_winner_rewards(&self, challenge: &mut Challenge, global: &mut Global, now: i64) -> (r:
        Result<(u64, bool), ProgramError>)
        ensures
            ({
                let c = *old(challenge);
                let g = *old(global);
                let caller = self.accounts.user.key;
                let allowed = spec_winner_claim_allowed(c, caller, now);
                let profit_overflow = !c.creator_has_claimed && g.treasury_profits
                    + spec_protocol_profit(c.total_slashed) > u64::MAX;
                &&& (r is Ok <==> allowed && !profit_overflow)
                &&& (caller@ != c.winner@ ==> r is Err && r->Err_0 == ProgramError::Custom(
                    ScreenWarErrors::NotWinner,
                ))
                &&& (caller@ == c.winner@ && !allowed ==> r is Err && r->Err_0
                    == ProgramError::Custom(ScreenWarErrors::ContentionPhase))
                &&& (allowed && profit_overflow ==> r is Err && r->Err_0
                    == ProgramError::ArithmeticOverflow)
                &&& (r is Err ==> *final(challenge) == c && *final(global) == g)
                &&& (r is Ok ==> (r->Ok_0).0 == spec_winner_reward(c.total_slashed))
                &&& (r is Ok ==> (r->Ok_0).1 == c.creator_has_claimed)
                &&& (r is Ok ==> spec_winner_claimed_challenge(c, *final(challenge)))
                &&& (r is Ok ==> spec_profit_accrued(
                    g,
                    *final(global),
                    spec_protocol_profit(c.total_slashed),
                    c.creator_has_claimed,
                ))
            }),
    {
        match Self::validate_caller_is_winner(&self.accounts.user, challenge.winner) {
            Ok(()) => {},
            Err(e) => {
                return Err(e);
            },
        }
        match Self::validate_contention_period_is_over(now, challenge.end) {
            Ok(()) => {},
            Err(e) => {
                return Err(e);
            },
        }

        let (winner_rewards, _creator_rewards, treasury_profits) = match Self::calculate_rewards(
            challenge.total_slashed,
        ) {
            Ok(v) => v,
            Err(e) => {
                return Err(e);
            },
        };

        let claimed_by_creator = challenge.creator_has_claimed;
        if !claimed_by_creator {
            match Self::update_treasury_profits(global, treasury_profits) {
                Ok(()) => {},
                Err(e) => {
                    return Err(e);
                },
            }
        }

        match Self::set_winner_claimed(challenge) {
            Ok(()) => {},
            Err(e) => {
                return Err(e);
            },
        }

        Ok((winner_rewards, claimed_by_creator))
    }

    /// The creator's settlement transition, symmetric to the winner's:
    /// pays the creator share, nulls the creator identity, and accrues
    /// protocol profit only if the winner has not claimed yet.
    pub fn process_creator_rewards(&self, challenge: &mut Challenge, global: &mut Global, now: i64) -> (r:
        Result<(u64, bool), ProgramError>)
        ensures
            ({
                let c = *old(challenge);
                let g = *old(global);
                let caller = self.accounts.user.key;
                let allowed = spec_creator_claim_allowed(c, caller, now);
                let profit_overflow = !c.winner_has_claimed && g.treasury_profits
                    + spec_protocol_profit(c.total_slashed) > u64::MAX;
                &&& (r is Ok <==> allowed && !profit_overflow)
                &&& (caller@ != c.creator@ ==> r is Err && r->Err_0 == ProgramError::Custom(
                    ScreenWarErrors::NotCreator,
                ))
                &&& (caller@ == c.creator@ && !allowed ==> r is Err && r->Err_0
                    == ProgramError::Custom(ScreenWarErrors::ContentionPhase))
                &&& (allowed && profit_overflow ==> r is Err && r->Err_0
                    == ProgramError::ArithmeticOverflow)
                &&& (r is Err ==> *final(challenge) == c && *final(global) == g)
                &&& (r is Ok ==> (r->Ok_0).0 == spec_creator_reward(c.total_slashed))
                &&& (r is Ok ==> (r->Ok_0).1 == c.winner_has_claimed)
                &&& (r is Ok ==> spec_creator_claimed_challenge(c, *final(challenge)))
                &&& (r is Ok ==> spec_profit_accrued(
                    g,
                    *final(global),
                    spec_protocol_profit(c.total_slashed),
                    c.winner_has_claimed,
                ))
            }),
    {
        match Self::validate_caller_is_creator(&self.accounts.user, challenge.creator) {
            Ok(()) => {},
            Err(e) => {
                return Err(e);
            },
        }
        match Self::validate_contention_period_is_over(now, challenge.end) {
            Ok(()) => {},
            Err(e) => {
                return Err(e);
            },
        }

        let (_winner_rewards, creator_rewards, treasury_profits) = match Self::calculate_rewards(
            challenge.total_slashed,
        ) {
            Ok(v) => v,
            Err(e) => {
                return Err(e);
            },
        };

        let claimed_by_winner = challenge.winner_has_claimed;
        if !claimed_by_winner {
            match Self::update_treasury_profits(global, treasury_profits) {
                Ok(()) => {},
                Err(e) => {
                    return Err(e);
                },
            }
        }

        match Self::set_creator_claimed(challenge) {
            Ok(()) => {},
            Err(e) => {
                return Err(e);
            },
        }

        Ok((creator_rewards, claimed_by_winner))
    }

    /// Rejects a caller other than the recorded winner.
    pub fn validate_caller_is_winner(caller: &AccountView, winner: Pubkey) -> (r: Result<
        (),
        ProgramError,
    >)
        ensures
            r is Ok <==> caller.key@ == winner@,
            r is Err ==> r->Err_0 == ProgramError::Custom(ScreenWarErrors::NotWinner),
    {
        if !pubkey_eq(&caller.key, &winner) {
            return Err(ProgramError::Custom(ScreenWarErrors::NotWinner));
        }
        Ok(())
    }

    /// Rejects a caller other than the recorded creator.
    pub fn validate_caller_is_creator(caller: &AccountView, creator: Pubkey) -> (r: Result<
        (),
        ProgramError,
    >)
        ensures
            r is Ok <==> caller.key@ == creator@,
            r is Err ==> r->Err_0 == ProgramError::Custom(ScreenWarErrors::NotCreator),
    {
        if !pubkey_eq(&caller.key, &creator) {
            return Err(ProgramError::Custom(ScreenWarErrors::NotCreator));
        }
        Ok(())
    }

    /// Rejects a reward claim while winner determination can still
    /// happen; a window end so late it cannot be represented never
    /// closes.
    pub fn validate_contention_period_is_over(now: i64, end: i64) -> (r: Result<(), ProgramError>)
        ensures
            r is Ok <==> end + FIVE_DAYS <= i64::MAX && now > end + FIVE_DAYS,
            r is Err ==> r->Err_0 == ProgramError::Custom(ScreenWarErrors::ContentionPhase),
    {
        let contention_period = match end.checked_add(FIVE_DAYS) {
            Some(v) => v,
            None => {
                return Err(ProgramError::Custom(ScreenWarErrors::ContentionPhase));
            },
        };
        if contention_period >= now {
            return Err(ProgramError::Custom(ScreenWarErrors::ContentionPhase));
        }
        Ok(())
    }

    /// Marks the winner's reward as claimed and nulls the winner
    /// identity to the empty value, in one step: the pair is never set
    /// one without the other.
    pub fn set_winner_claimed(challenge: &mut Challenge) -> (r: Result<(), ProgramError>)
        ensures
            r is Ok,
            (*final(challenge)).winner_has_claimed,
            is_empty_pubkey((*final(challenge)).winner),
            (*final(challenge)).creator == old(challenge).creator,
            (*final(challenge)).challenge_id == old(challenge).challenge_id,
            (*final(challenge)).daily_timer == old(challenge).daily_timer,
            (*final(challenge)).start == old(challenge).start,
            (*final(challenge)).end == old(challenge).end,
            (*final(challenge)).total_slashed == old(challenge).total_slashed,
            (*final(challenge)).winner_streak == old(challenge).winner_streak,
            (*final(challenge)).creator_has_claimed == old(challenge).creator_has_claimed,
            (*final(challenge)).total_participants == old(challenge).total_participants,
            (*final(challenge)).bump == old(challenge).bump,
    {
        challenge.winner_has_claimed = true;
        challenge.winner = empty_pubkey();
        Ok(())
    }

    /// Marks the creator's reward as claimed and nulls the creator
    /// identity to the empty value, in one step.
    pub fn set_creator_claimed(challenge: &mut Challenge) -> (r: Result<(), ProgramError>)
        ensures
            r is Ok,
            (*final(challenge)).creator_has_claimed,
            is_empty_pubkey((*final(challenge)).creator),
            (*final(challenge)).winner == old(challenge).winner,
            (*final(challenge)).challenge_id == old(challenge).challenge_id,
            (*final(challenge)).daily_timer == old(challenge).daily_timer,
            (*final(challenge)).start == old(challenge).start,
            (*final(challenge)).end == old(challenge).end,
            (*final(challenge)).total_slashed == old(challenge).total_slashed,
            (*final(challenge)).winner_streak == old(challenge).winner_streak,
            (*final(challenge)).winner_has_claimed == old(challenge).winner_has_claimed,
            (*final(challenge)).total_participants == old(challenge).total_participants,
            (*final(challenge)).bump == old(challenge).bump,
    {
        challenge.creator_has_claimed = true;
        challenge.creator = empty_pubkey();
        Ok(())
    }

    /// The fixed-point reward split: winner 50%, creator 10%, both
    /// rounded down, and the protocol share absorbs the residue so the
    /// three always sum back to the pool. It never fails for any pool.
    pub fn calculate_rewards(total_slashed: u64) -> (r: Result<(u64, u64, u64), ProgramError>)
        ensures
            r is Ok,
            (r->Ok_0).0 == spec_winner_reward(total_slashed),
            (r->Ok_0).1 == spec_creator_reward(total_slashed),
            (r->Ok_0).2 == spec_protocol_profit(total_slashed),
            (r->Ok_0).0 + (r->Ok_0).1 + (r->Ok_0).2 == total_slashed,
    {
        proof {
            lemma_reward_split_conserves(total_slashed);
        }
        let total_slashed_wide = total_slashed as u128;

        let winner_rewards: u128 = match SCALED_50_PERCENT.checked_mul(SCALE) {
            Some(a) => match a.checked_div(SCALE) {
                Some(b) => match b.checked_mul(total_slashed_wide) {
                    Some(c) => match c.checked_div(SCALE) {
                        Some(d) => d,
                        None => {
                            return Err(ProgramError::Custom(ScreenWarErrors::IntegerUnderflow));
                        },
                    },
                    None => {
                        return Err(ProgramError::Custom(ScreenWarErrors::IntegerOverflow));
                    },
                },
                None => {
                    return Err(ProgramError::Custom(ScreenWarErrors::IntegerUnderflow));
                },
            },
            None => {
                return Err(ProgramError::Custom(ScreenWarErrors::IntegerOverflow));
            },
        };

        let creator_reward: u128 = match SCALED_10_PERCENT.checked_mul(SCALE) {
            Some(a) => match a.checked_div(SCALE) {
                Some(b) => match b.checked_mul(total_slashed_wide) {
                    Some(c) => match c.checked_div(SCALE) {
                        Some(d) => d,
                        None => {
                            return Err(ProgramError::Custom(ScreenWarErrors::IntegerUnderflow));
                        },
                    },
                    None => {
                        return Err(ProgramError::Custom(ScreenWarErrors::IntegerOverflow));
                    },
                },
                None => {
                    return Err(ProgramError::Custom(ScreenWarErrors::IntegerUnderflow));
                },
            },
            None => {
                return Err(ProgramError::Custom(ScreenWarErrors::IntegerOverflow));
            },
        };

        let non_protocol_rewards = match winner_rewards.checked_add(creator_reward) {
            Some(v) => v,
            None => {
                return Err(ProgramError::Custom(ScreenWarErrors::IntegerOverflow));
            },
        };

        let protocol_profits = match total_slashed_wide.checked_sub(non_protocol_rewards) {
            Some(v) => v,
            None => {
                return Err(ProgramError::Custom(ScreenWarErrors::IntegerUnderflow));
            },
        };

        Ok((winner_rewards as u64, creator_reward as u64, protocol_profits as u64))
    }

    /// Protocol profit accrues to the treasury's running total.
    pub fn update_treasury_profits(global: &mut Global, amount: u64) -> (r: Result<(), ProgramError>)
        ensures
            r is Ok <==> old(global).treasury_profits + amount <= u64::MAX,
            r is Ok ==> *final(global) == (Global {
                treasury_profits: (old(global).treasury_profits + amount) as u64,
                ..*old(global)
            }),
            r is Err ==> r->Err_0 == ProgramError::ArithmeticOverflow && *final(global) == *old(
                global,
            ),
    {
        let new_profits = match global.treasury_profits.checked_add(amount) {
            Some(v) => v,
            None => {
                return Err(ProgramError::ArithmeticOverflow);
            },
        };
        global.treasury_profits = new_profits;
        Ok(())
    }
}

} // verus!
