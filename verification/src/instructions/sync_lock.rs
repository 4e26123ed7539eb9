//! The daily sync: the core economics path.
//!
//! Valid only while the challenge window is open. The attendance oracle
//! reports `(passed_today, days_not_synced, synced_today)`; the handler
//! decides the deposit owed to the treasury, the exponential penalty on
//! the locked balance for missed days, the streak update, and the growth
//! of the challenge's slashed pool.

use vstd::prelude::*;
use vstd::arithmetic::div_mod::{lemma_div_is_ordered, lemma_div_multiples_vanish,
    lemma_div_pos_is_pos};
use vstd::arithmetic::power::{pow, lemma_pow_increases, lemma_pow_positive};
use vstd::bytes::spec_u32_from_le_bytes;
use crate::accounts::{AccountView, DerivedPda, pubkey_eq};
use vstd::slice::slice_index_get;
use crate::codec::{read_u32_le, read_u8};
use crate::constants::{DAILY_LAMPORTS, RATE_75_PERCENT, SCALE};
use crate::custom_errors::{ProgramError, ScreenWarErrors};
use crate::math::{checked_pow_u128, lemma_pow_base_ordered};
use crate::mock_oracle::{mock_offchain_oracle_component, spec_oracle_answer, DebugData};
use crate::state::{Challenge, User};

verus! {

/// The daily sync instruction: resolved accounts plus decoded payload.
pub struct SyncLock {
    pub accounts: SyncLockAccounts,
    pub instruction_data: SyncLockInstructionData,
}

/// The resolved accounts of a sync: the signing participant, the global
/// treasury record, the challenge record and the participant's record.
pub struct SyncLockAccounts {
    pub user: AccountView,
    pub global: AccountView,
    pub challenge: AccountView,
    pub user_pda: AccountView,
    pub global_bump: u8,
}

/// The sync payload: the challenge id and an optional attendance
/// override for the oracle.
#[derive(Clone, Copy, Debug, PartialEq, Eq)]
pub struct SyncLockInstructionData {
    pub challenge_id: u32,
    pub debug_data: Option<DebugData>,
}

/// The fixed-point multiplier (at [`SCALE`]) that a locked balance keeps
/// after `d` missed days: `750000^d * SCALE / 1000000^d`, rounded down.
pub open spec fn spec_penalty_multiplier(d: nat) -> int {
    pow(RATE_75_PERCENT as int, d) * (SCALE as int) / pow(SCALE as int, d)
}

/// The cumulative penalty on `balance` after `d` missed days: the part
/// of the balance that the retention multiplier does not keep.
pub open spec fn spec_penalty(balance: u64, d: nat) -> int {
    balance - (balance * spec_penalty_multiplier(d)) / (SCALE as int)
}

/// Concrete powers of the retention rate and the scale for every day
/// count the checked computation accepts, and the first it rejects.
proof fn lemma_small_pow_values()
    ensures
        pow(750000, 0) == 1,
        pow(750000, 1) == 750000,
        pow(750000, 2) == 562500000000,
        pow(750000, 3) == 421875000000000000,
        pow(750000, 4) == 316406250000000000000000,
        pow(750000, 5) == 237304687500000000000000000000,
        pow(750000, 6) == 177978515625000000000000000000000000,
        pow(750000, 7) == 133483886718750000000000000000000000000000,
        pow(1000000, 0) == 1,
        pow(1000000, 1) == 1000000,
        pow(1000000, 2) == 1000000000000,
        pow(1000000, 3) == 1000000000000000000,
        pow(1000000, 4) == 1000000000000000000000000,
        pow(1000000, 5) == 1000000000000000000000000000000,
        pow(1000000, 6) == 1000000000000000000000000000000000000,
{
    reveal_with_fuel(pow, 9);
}

/// The retention multiplier never exceeds the scale and never goes
/// negative: no penalty can exceed the balance it is taken from.
pub proof fn lemma_penalty_multiplier_bounds(d: nat)
    ensures
        0 <= spec_penalty_multiplier(d) <= SCALE,
{
    let r = RATE_75_PERCENT as int;
    let s = SCALE as int;
    lemma_pow_base_ordered(r, s, d);
    lemma_pow_positive(s, d);
    let n = pow(r, d);
    let dn = pow(s, d);
    lemma_div_pos_is_pos(n * s, dn);
    lemma_div_is_ordered(n * s, dn * s, dn);
    lemma_div_multiples_vanish(s, dn);
}

/// Missing more days never shrinks the retention loss: the multiplier is
/// non-increasing in the day count.
pub proof fn lemma_penalty_multiplier_nonincreasing(d1: nat, d2: nat)
    requires
        d1 <= d2,
    ensures
        spec_penalty_multiplier(d2) <= spec_penalty_multiplier(d1),
    decreases d2 - d1,
{
    if d1 < d2 {
        let d = (d2 - 1) as nat;
        lemma_penalty_multiplier_nonincreasing(d1, d);
        let r = RATE_75_PERCENT as int;
        let s = SCALE as int;
        lemma_pow_base_ordered(r, s, d);
        lemma_pow_positive(s, d);
        let n = pow(r, d);
        let dn = pow(s, d);
        // one more day multiplies the numerator by the rate and the
        // denominator by the scale; the scale factors cancel exactly
        assert(pow(r, d2) == n * r) by {
            vstd::arithmetic::power::lemma_pow1(r);
            vstd::arithmetic::power::lemma_pow_adds(r, d, 1);
        }
        assert(pow(s, d2) == dn * s) by {
            vstd::arithmetic::power::lemma_pow1(s);
            vstd::arithmetic::power::lemma_pow_adds(s, d, 1);
        }
        assert(spec_penalty_multiplier(d2) == (n * r * s) / (dn * s));
        assert(n * r * s == (n * r) * s) by (nonlinear_arith);
        assert((n * r) * s / (dn * s) == (n * r) / dn) by {
            lemma_div_cancel_common_factor(n * r, dn, s);
        }
        assert(n * r <= n * s) by (nonlinear_arith)
            requires
                0 <= n,
                0 < r <= s,
        ;
        lemma_div_is_ordered(n * r, n * s, dn);
    }
}

/// Dividing after scaling both sides by a positive factor changes
/// nothing: `(x*c) / (y*c) == x / y`.
proof fn lemma_div_cancel_common_factor(x: int, y: int, c: int)
    requires
        0 <= x,
        0 < y,
        0 < c,
    ensures
        (x * c) / (y * c) == x / y,
{
    assert(x * c >= 0) by (nonlinear_arith)
        requires
            0 <= x,
            0 < c,
    ;
    assert(y * c > 0) by (nonlinear_arith)
        requires
            0 < y,
            0 < c,
    ;
    vstd::arithmetic::div_mod::lemma_div_denominator(x * c, c, y);
    assert((x * c) / (c * y) == ((x * c) / c) / y);
    assert(y * c == c * y);
    vstd::arithmetic::div_mod::lemma_div_multiples_vanish(x, c);
    assert(c * x == x * c) by (nonlinear_arith);
}

/// The penalty never goes negative, never exceeds the balance, and is
/// non-decreasing in the number of missed days.
pub proof fn lemma_penalty_nondecreasing(balance: u64, d1: nat, d2: nat)
    requires
        d1 <= d2,
    ensures
        0 <= spec_penalty(balance, d1) <= spec_penalty(balance, d2) <= balance,
{
    let s = SCALE as int;
    let m1 = spec_penalty_multiplier(d1);
    let m2 = spec_penalty_multiplier(d2);
    lemma_penalty_multiplier_bounds(d1);
    lemma_penalty_multiplier_bounds(d2);
    lemma_penalty_multiplier_nonincreasing(d1, d2);
    assert(balance * m2 <= balance * m1 <= balance * s) by (nonlinear_arith)
        requires
            0 <= balance as int,
            0 <= m2 <= m1 <= s,
    ;
    assert(0 <= balance * m2) by (nonlinear_arith)
        requires
            0 <= balance as int,
            0 <= m2,
    ;
    lemma_div_is_ordered(balance * m2, balance * m1, s);
    lemma_div_is_ordered(balance * m1, balance * s, s);
    lemma_div_pos_is_pos(balance * m2, s);
    lemma_div_multiples_vanish(balance as int, s);
    assert(s * balance == balance * s) by (nonlinear_arith);
}

/// A penalty on nothing is nothing, whatever the day count.
pub proof fn lemma_penalty_zero_balance(d: nat)
    ensures
        spec_penalty(0, d) == 0,
{
    let s = SCALE as int;
    assert(0 * spec_penalty_multiplier(d) == 0) by (nonlinear_arith);
    vstd::arithmetic::div_mod::lemma_div_of0(s);
}

/// One daily sync, as a function of state, clock and oracle answer:
/// either a failing check, leaving the Challenge and the User exactly
/// as they were, or their updated values together with the deposit
/// owed to the treasury.
pub open spec fn spec_sync_outcome(
    c: Challenge,
    u: User,
    now: i64,
    passed: bool,
    days: u8,
    synced: bool,
) -> Result<(Challenge, User, u64), ProgramError> {
    if now < c.start {
        Err(ProgramError::Custom(ScreenWarErrors::ChallengeNotStarted))
    } else if now > c.end {
        Err(ProgramError::Custom(ScreenWarErrors::ChallengeEnded))
    } else if synced {
        Err(ProgramError::Custom(ScreenWarErrors::AlreadySynced))
    } else if days == 255 {
        Err(ProgramError::Custom(ScreenWarErrors::IntegerOverflow))
    } else {
        let missed: int = days + (if passed { 0int } else { 1int });
        if missed > 5 && u.locked_balance > 0 {
            Err(ProgramError::Custom(ScreenWarErrors::IntegerOverflow))
        } else {
            let penalty: int = if missed > 0 { spec_penalty(u.locked_balance, missed as nat) } else { 0 };
            let new_slashed: int = c.total_slashed
                + (if missed > 0 { DAILY_LAMPORTS * missed + penalty } else { 0 });
            if new_slashed > u64::MAX {
                Err(ProgramError::Custom(ScreenWarErrors::IntegerOverflow))
            } else if passed && u.locked_balance - penalty + DAILY_LAMPORTS > i64::MAX {
                Err(ProgramError::Custom(ScreenWarErrors::IntegerBoundsExceeded))
            } else {
                let new_balance: int = if passed {
                    u.locked_balance - penalty + DAILY_LAMPORTS
                } else {
                    u.locked_balance - penalty
                };
                let new_streak: int = if passed { if missed > 0 { 1 } else { u.streak + 1 } } else { 0 };
                Ok((
                    (Challenge { total_slashed: new_slashed as u64, ..c }),
                    (User { locked_balance: new_balance as u64, streak: new_streak as u8, ..u }),
                    ((days + 1) * DAILY_LAMPORTS) as u64,
                ))
            }
        }
    }
}

/// Invariants a sync can never break: the slashed pool only grows
/// until settlement consumes it, the fixed 21-day window never moves,
/// and the participant's enrollment never changes.
pub proof fn lemma_sync_preserves_invariants(
    c: Challenge,
    u: User,
    now: i64,
    passed: bool,
    days: u8,
    synced: bool,
)
    ensures
        ({
            match spec_sync_outcome(c, u, now, passed, days, synced) {
                Ok(res) => res.0.total_slashed >= c.total_slashed && res.0.start == c.start
                    && res.0.end == c.end && (c.wf() ==> res.0.wf()) && res.1.challenge_id
                    == u.challenge_id && res.1.user@ == u.user@,
                Err(_) => true,
            }
        }),
{
    let missed = days + (if passed { 0int } else { 1int });
    if missed > 0 {
        lemma_penalty_nondecreasing(u.locked_balance, missed as nat, missed as nat);
    }
}

impl SyncLockAccounts {
    /// Resolves and authorizes the sync's accounts: exactly six are
    /// expected (participant, global, challenge, participant record,
    /// clock, system); the participant must have signed, and the
    /// participant and global records must stand at their derived
    /// addresses.
    pub fn try_from(
        accounts: &[AccountView],
        user_pda_derived: &DerivedPda,
        global_derived: &DerivedPda,
    ) -> (r: Result<SyncLockAccounts, ProgramError>)
        ensures
            ({
                let n_ok = accounts@.len() == 6;
                let signer_ok = n_ok && accounts@[0].is_signer;
                let upda_ok = n_ok && accounts@[3].key@ == user_pda_derived.key@;
                let global_ok = n_ok && accounts@[1].key@ == global_derived.key@;
                &&& (r is Ok <==> n_ok && signer_ok && upda_ok && global_ok)
                &&& (!n_ok ==> r == Err::<SyncLockAccounts, ProgramError>(
                    ProgramError::NotEnoughAccountKeys,
                ))
                &&& (n_ok && !signer_ok ==> r == Err::<SyncLockAccounts, ProgramError>(
                    ProgramError::Custom(ScreenWarErrors::NotSigner),
                ))
                &&& (signer_ok && !upda_ok ==> r == Err::<SyncLockAccounts, ProgramError>(
                    ProgramError::Custom(ScreenWarErrors::InvalidUserPDA),
                ))
                &&& (signer_ok && upda_ok && !global_ok ==> r == Err::<SyncLockAccounts, ProgramError>(
                    ProgramError::InvalidSeeds,
                ))
                &&& (r is Ok ==> r->Ok_0 == (SyncLockAccounts {
                    user: accounts@[0],
                    global: accounts@[1],
                    challenge: accounts@[2],
                    user_pda: accounts@[3],
                    global_bump: global_derived.bump,
                }))
            }),
    {
        if accounts.len() != 6 {
            return Err(ProgramError::NotEnoughAccountKeys);
        }
        let user = *slice_index_get(accounts, 0);
        let global = *slice_index_get(accounts, 1);
        let challenge = *slice_index_get(accounts, 2);
        let user_pda = *slice_index_get(accounts, 3);

        if !user.is_signer {
            return Err(ProgramError::Custom(ScreenWarErrors::NotSigner));
        }
        if !pubkey_eq(&user_pda.key, &user_pda_derived.key) {
            return Err(ProgramError::Custom(ScreenWarErrors::InvalidUserPDA));
        }
        if !pubkey_eq(&global.key, &global_derived.key) {
            return Err(ProgramError::InvalidSeeds);
        }
        Ok(SyncLockAccounts { user, global, challenge, user_pda, global_bump: global_derived.bump })
    }
}

/// The decoded sync payload: 4 bytes of challenge id, one
/// override-present flag byte, 3 override bytes. Any other length is
/// malformed.
pub open spec fn spec_parse_sync_lock(payload: Seq<u8>) -> Result<
    SyncLockInstructionData,
    ProgramError,
> {
    if payload.len() != 8 {
        Err(ProgramError::InvalidInstructionData)
    } else {
        Ok(SyncLockInstructionData {
            challenge_id: spec_u32_from_le_bytes(payload.subrange(0, 4)),
            debug_data: if payload[4] == 1 {
                Some(DebugData {
                    user_passed: payload[5] != 0,
                    days_not_synced: payload[6],
                    synced_today: payload[7] != 0,
                })
            } else {
                None
            },
        })
    }
}

impl SyncLockInstructionData {
    /// Decodes the fixed-width sync payload.
    pub fn try_from(data: &[u8]) -> (r: Result<SyncLockInstructionData, ProgramError>)
        ensures
            r == spec_parse_sync_lock(data@),
    {
        if data.len() != 8 {
            return Err(ProgramError::InvalidInstructionData);
        }
        let challenge_id = read_u32_le(data, 0);
        let debug_data: Option<DebugData> = if read_u8(data, 4) == 1 {
            Some(DebugData {
                user_passed: read_u8(data, 5) != 0,
                days_not_synced: read_u8(data, 6),
                synced_today: read_u8(data, 7) != 0,
            })
        } else {
            None
        };
        Ok(SyncLockInstructionData { challenge_id, debug_data })
    }
}

impl SyncLock {
    /// Resolves accounts, decodes the payload, and checks that the
    /// challenge record stands at the address derived from the payload's
    /// challenge id.
    pub fn try_from(
        accounts: &[AccountView],
        data: &[u8],
        user_pda_derived: &DerivedPda,
        global_derived: &DerivedPda,
        challenge_derived: &DerivedPda,
    ) -> (r: Result<SyncLock, ProgramError>)
        ensures
            r is Ok ==> ({
                let s = r->Ok_0;
                &&& accounts@.len() == 6
                &&& s.accounts.user == accounts@[0]
                &&& s.accounts.global == accounts@[1]
                &&& s.accounts.challenge == accounts@[2]
                &&& s.accounts.user_pda == accounts@[3]
                &&& s.accounts.user.is_signer
                &&& s.accounts.user_pda.key@ == user_pda_derived.key@
                &&& s.accounts.global.key@ == global_derived.key@
                &&& s.accounts.challenge.key@ == challenge_derived.key@
                &&& data@.len() == 8
                &&& Ok::<SyncLockInstructionData, ProgramError>(s.instruction_data)
                    == spec_parse_sync_lock(data@)
            }),
            r is Err ==> (accounts@.len() != 6 || data@.len() != 8 || !accounts@[0].is_signer
                || accounts@[3].key@ != user_pda_derived.key@
                || accounts@[1].key@ != global_derived.key@
                || accounts@[2].key@ != challenge_derived.key@),
    {
        let resolved = match SyncLockAccounts::try_from(accounts, user_pda_derived, global_derived) {
            Ok(a) => a,
            Err(e) => {
                return Err(e);
            },
        };
        let instruction_data = match SyncLockInstructionData::try_from(data) {
            Ok(d) => d,
            Err(e) => {
                return Err(e);
            },
        };
        if !pubkey_eq(&resolved.challenge.key, &challenge_derived.key) {
            return Err(ProgramError::Custom(ScreenWarErrors::InvalidChallengePDA));
        }
        Ok(SyncLock { accounts: resolved, instruction_data })
    }

    /// The daily sync transition. On success it returns the deposit the
    /// host must transfer from the participant to the treasury and
    /// updates both records as [`spec_sync_outcome`] states; on any
    /// error both records are untouched.
    pub fn process(&self, challenge: &mut Challenge, user_pda: &mut User, now: i64) -> (r: Result<
        u64,
        ProgramError,
    >)
        requires
            old(user_pda).locked_balance <= i64::MAX as u64,
            ({
                let (passed, days, synced) = spec_oracle_answer(self.instruction_data.debug_data);
                passed && days == 0 ==> old(user_pda).streak < 255
            }),
        ensures
            ({
                let (passed, days, synced) = spec_oracle_answer(self.instruction_data.debug_data);
                match spec_sync_outcome(*old(challenge), *old(user_pda), now, passed, days, synced) {
                    Ok(res) => r == Ok::<u64, ProgramError>(res.2) && *final(challenge) == res.0
                        && *final(user_pda) == res.1,
                    Err(e) => r == Err::<u64, ProgramError>(e) && *final(challenge) == *old(challenge)
                        && *final(user_pda) == *old(user_pda),
                }
            }),
    {
        match Self::validate_challenge_has_started(now, challenge.start) {
            Ok(()) => {},
            Err(e) => {
                return Err(e);
            },
        }
        match Self::validate_challenge_has_not_ended(now, challenge.end) {
            Ok(()) => {},
            Err(e) => {
                return Err(e);
            },
        }

        let (user_passed_today, days_not_synced, synced_today) = match mock_offchain_oracle_component(
            self.instruction_data.debug_data,
        ) {
            Ok(v) => v,
            Err(e) => {
                return Err(e);
            },
        };

        match Self::validated_today_not_synced_already(synced_today) {
            Ok(()) => {},
            Err(e) => {
                return Err(e);
            },
        }

        // the due day itself plus any unfunded missed days
        let days_to_deposit: u8 = match days_not_synced.checked_add(1) {
            Some(v) => v,
            None => {
                return Err(ProgramError::Custom(ScreenWarErrors::IntegerOverflow));
            },
        };
        let deposit = match self.deposit_total_daily_lamports(days_to_deposit) {
            Ok(v) => v,
            Err(e) => {
                return Err(e);
            },
        };

        let mut days_not_synced_or_failed: u8 = days_not_synced;
        if !user_passed_today {
            days_not_synced_or_failed = days_not_synced_or_failed + 1;
        }

        // pre-flight all arithmetic, so that a failing instruction
        // leaves both records exactly as they were
        let current_balance = user_pda.locked_balance;
        let mut lb_penalty: u64 = 0;
        let mut total_penalty: u64 = 0;
        if days_not_synced_or_failed > 0 {
            lb_penalty = match Self::calculate_exponential_penalty_on_locked_balance(
                current_balance,
                days_not_synced_or_failed,
            ) {
                Ok(p) => p,
                Err(e) => {
                    return Err(e);
                },
            };
            total_penalty = match DAILY_LAMPORTS.checked_mul(days_not_synced_or_failed as u64) {
                Some(v) => match v.checked_add(lb_penalty) {
                    Some(w) => w,
                    None => {
                        return Err(ProgramError::Custom(ScreenWarErrors::IntegerOverflow));
                    },
                },
                None => {
                    return Err(ProgramError::Custom(ScreenWarErrors::IntegerOverflow));
                },
            };
            if challenge.total_slashed.checked_add(total_penalty).is_none() {
                return Err(ProgramError::Custom(ScreenWarErrors::IntegerOverflow));
            }
        }
        let balance_after_slash = current_balance - lb_penalty;
        if user_passed_today && balance_after_slash > (i64::MAX as u64) - DAILY_LAMPORTS {
            return Err(ProgramError::Custom(ScreenWarErrors::IntegerBoundsExceeded));
        }

        // commit
        if days_not_synced_or_failed > 0 {
            match Self::reset_streak(user_pda) {
                Ok(()) => {},
                Err(e) => {
                    return Err(e);
                },
            }
            match Self::update_users_locked_balance(user_pda, -(lb_penalty as i64)) {
                Ok(()) => {},
                Err(e) => {
                    return Err(e);
                },
            }
            match Self::update_total_slashed_in_challenge(challenge, total_penalty) {
                Ok(()) => {},
                Err(e) => {
                    return Err(e);
                },
            }
        }

        if user_passed_today {
            match Self::increment_streak(user_pda) {
                Ok(()) => {},
                Err(e) => {
                    return Err(e);
                },
            }
            match Self::update_users_locked_balance(user_pda, DAILY_LAMPORTS as i64) {
                Ok(()) => {},
                Err(e) => {
                    return Err(e);
                },
            }
        }

        Ok(deposit)
    }

    /// Rejects a sync before the challenge window opens.
    pub fn validate_challenge_has_started(now: i64, challenge_start: i64) -> (r: Result<
        (),
        ProgramError,
    >)
        ensures
            r is Ok <==> now >= challenge_start,
            r is Err ==> r->Err_0 == ProgramError::Custom(ScreenWarErrors::ChallengeNotStarted),
    {
        if now < challenge_start {
            return Err(ProgramError::Custom(ScreenWarErrors::ChallengeNotStarted));
        }
        Ok(())
    }

    /// Rejects a sync after the challenge window has closed.
    pub fn validate_challenge_has_not_ended(now: i64, challenge_end: i64) -> (r: Result<
        (),
        ProgramError,
    >)
        ensures
            r is Ok <==> now <= challenge_end,
            r is Err ==> r->Err_0 == ProgramError::Custom(ScreenWarErrors::ChallengeEnded),
    {
        if now > challenge_end {
            return Err(ProgramError::Custom(ScreenWarErrors::ChallengeEnded));
        }
        Ok(())
    }

    /// Rejects a second sync within the same day: the idempotence guard.
    pub fn validated_today_not_synced_already(synced_today: bool) -> (r: Result<(), ProgramError>)
        ensures
            r is Ok <==> !synced_today,
            r is Err ==> r->Err_0 == ProgramError::Custom(ScreenWarErrors::AlreadySynced),
    {
        if synced_today {
            return Err(ProgramError::Custom(ScreenWarErrors::AlreadySynced));
        }
        Ok(())
    }

    /// Decides the deposit the host transfers from the participant to
    /// the treasury: the daily rate for each day to fund.
    pub fn deposit_total_daily_lamports(&self, days_to_update: u8) -> (r: Result<u64, ProgramError>)
        ensures
            r == Ok::<u64, ProgramError>((days_to_update * DAILY_LAMPORTS) as u64),
    {
        let lamports = match (days_to_update as u64).checked_mul(DAILY_LAMPORTS) {
            Some(v) => v,
            None => {
                proof {
                    assert(false);
                }
                return Err(ProgramError::Custom(ScreenWarErrors::IntegerOverflow));
            },
        };
        Ok(lamports)
    }

    /// Adjusts the participant's locked balance by `amount`: positive to
    /// credit, negative to slash. The stored balance becomes the
    /// magnitude of the adjusted value, exactly as the ledger's
    /// sign-then-negate rule has it.
    pub fn update_users_locked_balance(user_pda: &mut User, amount: i64) -> (r: Result<
        (),
        ProgramError,
    >)
        requires
            old(user_pda).locked_balance <= i64::MAX as u64,
            old(user_pda).locked_balance + amount > i64::MIN,
        ensures
            ({
                let sum = old(user_pda).locked_balance + amount;
                &&& (r is Ok <==> sum <= i64::MAX)
                &&& (r is Ok ==> *final(user_pda) == (User {
                    locked_balance: (if sum >= 0 { sum } else { -sum }) as u64,
                    ..*old(user_pda)
                }))
                &&& (r is Err ==> r->Err_0 == ProgramError::Custom(
                    ScreenWarErrors::IntegerBoundsExceeded,
                ) && *final(user_pda) == *old(user_pda))
            }),
    {
        let new_balance = match (user_pda.locked_balance as i64).checked_add(amount) {
            Some(v) => v,
            None => {
                return Err(ProgramError::Custom(ScreenWarErrors::IntegerBoundsExceeded));
            },
        };

        user_pda.locked_balance = if new_balance >= 0 {
            new_balance as u64
        } else {
            (-new_balance) as u64
        };

        Ok(())
    }

    /// The exponential slashing penalty: after `d` missed days a balance
    /// keeps `75%` of itself per day (fixed-point, rounded down), and the
    /// penalty is the cumulative loss. The checked fixed-point power
    /// overflows from six missed days up on a non-zero balance, and the
    /// instruction then aborts.
    pub fn calculate_exponential_penalty_on_locked_balance(
        current_balance: u64,
        days_not_synced_or_failed: u8,
    ) -> (r: Result<u64, ProgramError>)
        ensures
            current_balance == 0 ==> r == Ok::<u64, ProgramError>(0u64),
            current_balance > 0 && days_not_synced_or_failed <= 5 ==> r == Ok::<u64, ProgramError>(
                spec_penalty(current_balance, days_not_synced_or_failed as nat) as u64,
            ),
            current_balance > 0 && days_not_synced_or_failed > 5 ==> r == Err::<u64, ProgramError>(
                ProgramError::Custom(ScreenWarErrors::IntegerOverflow),
            ),
            r is Ok ==> r->Ok_0 <= current_balance && r->Ok_0
                == spec_penalty(current_balance, days_not_synced_or_failed as nat),
    {
        proof {
            lemma_small_pow_values();
            lemma_penalty_zero_balance(days_not_synced_or_failed as nat);
        }
        if current_balance == 0 {
            Ok(0)
        } else {
            let d = days_not_synced_or_failed as u32;
            proof {
                if d <= 5 {
                    lemma_pow_increases(750000, d as nat, 5);
                    lemma_pow_increases(1000000, d as nat, 5);
                } else if d >= 7 {
                    lemma_pow_increases(750000, 7, d as nat);
                }
            }

            let numerator = match checked_pow_u128(RATE_75_PERCENT, d) {
                Some(v) => v,
                None => {
                    return Err(ProgramError::Custom(ScreenWarErrors::IntegerOverflow));
                },
            };

            let denominator = match checked_pow_u128(SCALE, d) {
                Some(v) => v,
                None => {
                    return Err(ProgramError::Custom(ScreenWarErrors::IntegerOverflow));
                },
            };

            proof {
                lemma_pow_base_ordered(750000, 1000000, d as nat);
                lemma_pow_positive(1000000, d as nat);
            }

            let scaled = match numerator.checked_mul(SCALE) {
                Some(v) => v,
                None => {
                    return Err(ProgramError::Custom(ScreenWarErrors::IntegerOverflow));
                },
            };

            let multiplier = match scaled.checked_div(denominator) {
                Some(v) => v,
                None => {
                    return Err(ProgramError::Custom(ScreenWarErrors::IntegerUnderflow));
                },
            };

            proof {
                lemma_div_is_ordered(
                    pow(750000, d as nat) * SCALE,
                    pow(1000000, d as nat) * SCALE,
                    pow(1000000, d as nat),
                );
                lemma_div_multiples_vanish(SCALE as int, pow(1000000, d as nat));
                lemma_div_pos_is_pos(pow(750000, d as nat) * SCALE, pow(1000000, d as nat));
                assert(pow(1000000, d as nat) * (SCALE as int) == (SCALE as int) * pow(
                    1000000,
                    d as nat,
                )) by (nonlinear_arith);
                assert(0 <= multiplier <= SCALE);
            }

            let balance_u128 = current_balance as u128;

            proof {
                assert(balance_u128 * multiplier <= balance_u128 * SCALE) by (nonlinear_arith)
                    requires
                        0 <= balance_u128,
                        0 <= multiplier <= SCALE,
                ;
            }

            let final_balance = match balance_u128.checked_mul(multiplier) {
                Some(v) => v,
                None => {
                    return Err(ProgramError::Custom(ScreenWarErrors::IntegerOverflow));
                },
            };

            let final_scaled = match final_balance.checked_div(SCALE) {
                Some(v) => v,
                None => {
                    return Err(ProgramError::Custom(ScreenWarErrors::IntegerUnderflow));
                },
            };

            proof {
                lemma_div_is_ordered(
                    balance_u128 * multiplier,
                    balance_u128 * SCALE,
                    SCALE as int,
                );
                lemma_div_multiples_vanish(balance_u128 as int, SCALE as int);
                assert((SCALE as int) * (balance_u128 as int) == (balance_u128 as int) * (
                SCALE as int)) by (nonlinear_arith);
                assert(final_scaled <= balance_u128);
            }

            let penalty = match balance_u128.checked_sub(final_scaled) {
                Some(v) => v,
                None => {
                    proof {
                        assert(false);
                    }
                    return Err(ProgramError::Custom(ScreenWarErrors::IntegerUnderflow));
                },
            };

            Ok(penalty as u64)
        }
    }

    /// A missed day resets the streak to zero.
    pub fn reset_streak(user_pda: &mut User) -> (r: Result<(), ProgramError>)
        ensures
            r is Ok,
            *final(user_pda) == (User { streak: 0, ..*old(user_pda) }),
    {
        user_pda.streak = 0;
        Ok(())
    }

    /// A passed day extends the streak by one.
    pub fn increment_streak(user_pda: &mut User) -> (r: Result<(), ProgramError>)
        requires
            old(user_pda).streak < 255,
        ensures
            r is Ok,
            *final(user_pda) == (User { streak: (old(user_pda).streak + 1) as u8, ..*old(user_pda) }),
    {
        user_pda.streak = user_pda.streak + 1;
        Ok(())
    }

    /// Slashed value accumulates in the challenge's reward pool.
    pub fn update_total_slashed_in_challenge(challenge: &mut Challenge, amount: u64) -> (r: Result<
        (),
        ProgramError,
    >)
        ensures
            r is Ok <==> old(challenge).total_slashed + amount <= u64::MAX,
            r is Ok ==> *final(challenge) == (Challenge {
                total_slashed: (old(challenge).total_slashed + amount) as u64,
                ..*old(challenge)
            }),
            r is Err ==> r->Err_0 == ProgramError::Custom(ScreenWarErrors::IntegerOverflow)
                && *final(challenge) == *old(challenge),
    {
        let new_total = match challenge.total_slashed.checked_add(amount) {
            Some(v) => v,
            None => {
                return Err(ProgramError::Custom(ScreenWarErrors::IntegerOverflow));
            },
        };
        challenge.total_slashed = new_total;
        Ok(())
    }
}

} // verus!
