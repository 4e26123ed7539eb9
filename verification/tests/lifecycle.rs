//! Lifecycle scenarios: daily sync, winner determination, settlement,
//! withdrawal and the admin operations, each against exact expected
//! state.

use screen_wars::accounts::AccountView;
use screen_wars::accounts::DerivedPda;
use screen_wars::constants::DAILY_LAMPORTS;
use screen_wars::constants::FIVE_DAYS;
use screen_wars::constants::THREE_WEEKS;
use screen_wars::custom_errors::ProgramError;
use screen_wars::custom_errors::ScreenWarErrors;
use screen_wars::instructions::ClaimRewards;
use screen_wars::instructions::ClaimWinnerPosition;
use screen_wars::instructions::SyncLock;
use screen_wars::instructions::TakeProfit;
use screen_wars::instructions::ToggleChallengeCreation;
use screen_wars::instructions::Withdraw;
use screen_wars::mock_oracle::DebugData;
use screen_wars::state::Challenge;
use screen_wars::state::Global;
use screen_wars::state::User;

const START: i64 = 1735689600;

fn key_of(tag: u8) -> [u8; 32] {
    [tag; 32]
}

fn sample_challenge() -> Challenge {
    Challenge {
        creator: key_of(5),
        challenge_id: 1,
        daily_timer: 7199,
        start: START,
        end: START + THREE_WEEKS,
        total_slashed: 0,
        winner: [0u8; 32],
        winner_streak: 0,
        winner_has_claimed: false,
        creator_has_claimed: false,
        total_participants: 1,
        bump: 253,
    }
}

fn sample_user(tag: u8, balance: u64, streak: u8) -> User {
    User { user: key_of(tag), challenge_id: 1, locked_balance: balance, streak, bump: 252 }
}

fn sample_global() -> Global {
    Global {
        admin: key_of(1),
        treasury: key_of(2),
        treasury_profits: 0,
        challenge_ids: 2,
        challenge_creation_paused: false,
        bump: 254,
    }
}

fn sync_instruction(user_tag: u8, debug: Option<DebugData>) -> SyncLock {
    let user = AccountView { key: key_of(user_tag), is_signer: true };
    let global = AccountView { key: key_of(2), is_signer: false };
    let challenge = AccountView { key: key_of(10), is_signer: false };
    let user_pda = AccountView { key: key_of(11), is_signer: false };
    let clock = AccountView { key: key_of(3), is_signer: false };
    let system = AccountView { key: key_of(4), is_signer: false };
    let accounts = vec![user, global, challenge, user_pda, clock, system];
    let mut data: Vec<u8> = 1u32.to_le_bytes().to_vec();
    match debug {
        Some(d) => {
            data.push(1);
            data.push(if d.user_passed { 1 } else { 0 });
            data.push(d.days_not_synced);
            data.push(if d.synced_today { 1 } else { 0 });
        },
        None => {
            data.push(0);
            data.extend_from_slice(&[0, 0, 0]);
        },
    }
    SyncLock::try_from(
        &accounts,
        &data,
        &DerivedPda { key: key_of(11), bump: 252 },
        &DerivedPda { key: key_of(2), bump: 254 },
        &DerivedPda { key: key_of(10), bump: 253 },
    )
    .unwrap()
}

fn winner_position_instruction(user_tag: u8) -> ClaimWinnerPosition {
    let user = AccountView { key: key_of(user_tag), is_signer: true };
    let challenge = AccountView { key: key_of(10), is_signer: false };
    let user_pda = AccountView { key: key_of(11), is_signer: false };
    let clock = AccountView { key: key_of(3), is_signer: false };
    let accounts = vec![user, challenge, user_pda, clock];
    let data: Vec<u8> = 1u32.to_le_bytes().to_vec();
    ClaimWinnerPosition::try_from(
        &accounts,
        &data,
        &DerivedPda { key: key_of(11), bump: 252 },
        &DerivedPda { key: key_of(10), bump: 253 },
    )
    .unwrap()
}

fn rewards_instruction(user_tag: u8) -> ClaimRewards {
    let user = AccountView { key: key_of(user_tag), is_signer: true };
    let challenge = AccountView { key: key_of(10), is_signer: false };
    let global = AccountView { key: key_of(2), is_signer: false };
    let clock = AccountView { key: key_of(3), is_signer: false };
    let system = AccountView { key: key_of(4), is_signer: false };
    let accounts = vec![user, challenge, global, clock, system];
    let data: Vec<u8> = Vec::new();
    ClaimRewards::try_from(
        &accounts,
        &data,
        &DerivedPda { key: key_of(2), bump: 254 },
        &DerivedPda { key: key_of(10), bump: 253 },
    )
    .unwrap()
}

#[test]
fn sync_on_a_passed_day_credits_and_extends_streak() {
    let mut challenge = sample_challenge();
    let mut user = sample_user(6, 0, 0);
    let ix = sync_instruction(6, None);
    let deposit = ix.process(&mut challenge, &mut user, START + 100).unwrap();
    assert_eq!(deposit, DAILY_LAMPORTS);
    assert_eq!(user.locked_balance, DAILY_LAMPORTS);
    assert_eq!(user.streak, 1);
    assert_eq!(challenge.total_slashed, 0);
}

#[test]
fn sync_twice_in_one_day_fails_and_changes_nothing() {
    let mut challenge = sample_challenge();
    let mut user = sample_user(6, 42_000_000, 3);
    let before_challenge = challenge;
    let before_user = user;
    let debug = DebugData { user_passed: true, days_not_synced: 0, synced_today: true };
    let ix = sync_instruction(6, Some(debug));
    let r = ix.process(&mut challenge, &mut user, START + 100);
    assert_eq!(r, Err(ProgramError::Custom(ScreenWarErrors::AlreadySynced)));
    assert_eq!(user.locked_balance, before_user.locked_balance);
    assert_eq!(user.streak, before_user.streak);
    assert_eq!(challenge.total_slashed, before_challenge.total_slashed);
}

#[test]
fn sync_on_a_missed_day_slashes_and_resets_streak() {
    let mut challenge = sample_challenge();
    let mut user = sample_user(6, 1_000_000, 7);
    let debug = DebugData { user_passed: false, days_not_synced: 0, synced_today: false };
    let ix = sync_instruction(6, Some(debug));
    let deposit = ix.process(&mut challenge, &mut user, START + 100).unwrap();
    assert_eq!(deposit, DAILY_LAMPORTS);
    assert_eq!(user.locked_balance, 750_000);
    assert_eq!(user.streak, 0);
    assert_eq!(challenge.total_slashed, DAILY_LAMPORTS + 250_000);
}

#[test]
fn sync_catching_up_after_misses_fires_both_branches() {
    let mut challenge = sample_challenge();
    let mut user = sample_user(6, 1_000_000, 7);
    let debug = DebugData { user_passed: true, days_not_synced: 2, synced_today: false };
    let ix = sync_instruction(6, Some(debug));
    let deposit = ix.process(&mut challenge, &mut user, START + 100).unwrap();
    // three days funded: the due day plus the two missed ones
    assert_eq!(deposit, 3 * DAILY_LAMPORTS);
    // two missed days slash 437500, then the passed day credits
    assert_eq!(user.locked_balance, 562_500 + DAILY_LAMPORTS);
    assert_eq!(user.streak, 1);
    assert_eq!(challenge.total_slashed, 2 * DAILY_LAMPORTS + 437_500);
}

#[test]
fn sync_outside_the_window_is_rejected() {
    let mut challenge = sample_challenge();
    let mut user = sample_user(6, 0, 0);
    let after_end = challenge.end + 1;
    let ix = sync_instruction(6, None);
    assert_eq!(
        ix.process(&mut challenge, &mut user, START - 1),
        Err(ProgramError::Custom(ScreenWarErrors::ChallengeNotStarted))
    );
    assert_eq!(
        ix.process(&mut challenge, &mut user, after_end),
        Err(ProgramError::Custom(ScreenWarErrors::ChallengeEnded))
    );
}

#[test]
fn sync_with_saturated_day_counter_overflows() {
    let mut challenge = sample_challenge();
    let mut user = sample_user(6, 0, 0);
    let debug = DebugData { user_passed: true, days_not_synced: 255, synced_today: false };
    let ix = sync_instruction(6, Some(debug));
    assert_eq!(
        ix.process(&mut challenge, &mut user, START + 100),
        Err(ProgramError::Custom(ScreenWarErrors::IntegerOverflow))
    );
    assert_eq!(user.streak, 0);
    assert_eq!(challenge.total_slashed, 0);
}

#[test]
fn sync_credit_past_the_balance_bound_is_rejected() {
    let mut challenge = sample_challenge();
    let mut user = sample_user(6, i64::MAX as u64, 3);
    let ix = sync_instruction(6, None);
    assert_eq!(
        ix.process(&mut challenge, &mut user, START + 100),
        Err(ProgramError::Custom(ScreenWarErrors::IntegerBoundsExceeded))
    );
    assert_eq!(user.locked_balance, i64::MAX as u64);
    assert_eq!(user.streak, 3);
}

#[test]
fn first_claimant_always_becomes_winner() {
    let mut challenge = sample_challenge();
    let user = sample_user(6, 0, 0);
    let in_window = challenge.end + 10;
    let ix = winner_position_instruction(6);
    ix.process(&mut challenge, &user, in_window).unwrap();
    assert_eq!(challenge.winner, key_of(6));
    assert_eq!(challenge.winner_streak, 0);
}

#[test]
fn tie_replaces_the_current_winner() {
    let mut challenge = sample_challenge();
    challenge.winner = key_of(7);
    challenge.winner_streak = 4;
    let user = sample_user(6, 0, 4);
    let in_window = challenge.end + 10;
    let ix = winner_position_instruction(6);
    ix.process(&mut challenge, &user, in_window).unwrap();
    assert_eq!(challenge.winner, key_of(6));
    assert_eq!(challenge.winner_streak, 4);
}

#[test]
fn lower_streak_cannot_replace_the_winner() {
    let mut challenge = sample_challenge();
    challenge.winner = key_of(7);
    challenge.winner_streak = 5;
    let user = sample_user(6, 0, 4);
    let in_window = challenge.end + 10;
    let ix = winner_position_instruction(6);
    assert_eq!(
        ix.process(&mut challenge, &user, in_window),
        Err(ProgramError::Custom(ScreenWarErrors::LowerStreak))
    );
    assert_eq!(challenge.winner, key_of(7));
}

#[test]
fn winner_claim_outside_contention_window_is_rejected() {
    let mut challenge = sample_challenge();
    let user = sample_user(6, 0, 0);
    let before_end = challenge.end - 1;
    let expired = challenge.end + FIVE_DAYS + 1;
    let ix = winner_position_instruction(6);
    assert_eq!(
        ix.process(&mut challenge, &user, before_end),
        Err(ProgramError::Custom(ScreenWarErrors::ChallengeNotEnded))
    );
    assert_eq!(
        ix.process(&mut challenge, &user, expired),
        Err(ProgramError::Custom(ScreenWarErrors::ContentionExpired))
    );
}

#[test]
fn winner_claim_from_another_challenge_is_rejected() {
    let mut challenge = sample_challenge();
    let mut user = sample_user(6, 0, 0);
    user.challenge_id = 9;
    let in_window = challenge.end + 10;
    let ix = winner_position_instruction(6);
    assert_eq!(
        ix.process(&mut challenge, &user, in_window),
        Err(ProgramError::Custom(ScreenWarErrors::NotEnrolled))
    );
}

#[test]
fn winner_reward_claim_pays_and_nulls_the_winner() {
    let mut challenge = sample_challenge();
    challenge.total_slashed = 1_000_000;
    challenge.winner = key_of(6);
    let mut global = sample_global();
    let late = challenge.end + FIVE_DAYS + 1;
    let ix = rewards_instruction(6);
    let (payout, close) = ix
        .process_winner_rewards(&mut challenge, &mut global, late)
        .unwrap();
    assert_eq!(payout, 500_000);
    assert!(!close);
    assert!(challenge.winner_has_claimed);
    assert_eq!(challenge.winner, [0u8; 32]);
    assert_eq!(global.treasury_profits, 400_000);
}

#[test]
fn second_winner_claim_fails_after_the_identity_is_nulled() {
    let mut challenge = sample_challenge();
    challenge.total_slashed = 1_000_000;
    challenge.winner = key_of(6);
    let mut global = sample_global();
    let late = challenge.end + FIVE_DAYS + 1;
    let ix = rewards_instruction(6);
    ix.process_winner_rewards(&mut challenge, &mut global, late).unwrap();

    // the same caller, and any other real caller, now fail
    let again = rewards_instruction(6);
    assert_eq!(
        again.process_winner_rewards(&mut challenge, &mut global, late),
        Err(ProgramError::Custom(ScreenWarErrors::NotWinner))
    );
    let other = rewards_instruction(7);
    assert_eq!(
        other.process_winner_rewards(&mut challenge, &mut global, late),
        Err(ProgramError::Custom(ScreenWarErrors::NotWinner))
    );
    assert_eq!(global.treasury_profits, 400_000);
}

#[test]
fn creator_claim_after_winner_closes_without_double_profit() {
    let mut challenge = sample_challenge();
    challenge.total_slashed = 1_000_000;
    challenge.winner = key_of(6);
    let mut global = sample_global();
    let late = challenge.end + FIVE_DAYS + 1;
    rewards_instruction(6).process_winner_rewards(&mut challenge, &mut global, late).unwrap();

    let (payout, close) = rewards_instruction(5)
        .process_creator_rewards(&mut challenge, &mut global, late)
        .unwrap();
    assert_eq!(payout, 100_000);
    assert!(close, "both sides claimed: the record is reclaimed");
    assert!(challenge.creator_has_claimed);
    assert_eq!(challenge.creator, [0u8; 32]);
    // profit was credited exactly once, by the first claim
    assert_eq!(global.treasury_profits, 400_000);
}

#[test]
fn reward_claims_respect_caller_and_window() {
    let mut challenge = sample_challenge();
    challenge.total_slashed = 1_000_000;
    challenge.winner = key_of(6);
    let mut global = sample_global();
    let late = challenge.end + FIVE_DAYS + 1;
    assert_eq!(
        rewards_instruction(7).process_winner_rewards(&mut challenge, &mut global, late),
        Err(ProgramError::Custom(ScreenWarErrors::NotWinner))
    );
    assert_eq!(
        rewards_instruction(7).process_creator_rewards(&mut challenge, &mut global, late),
        Err(ProgramError::Custom(ScreenWarErrors::NotCreator))
    );
    // the boundary instant still belongs to the contention window
    let boundary = challenge.end + FIVE_DAYS;
    assert_eq!(
        rewards_instruction(6).process_winner_rewards(&mut challenge, &mut global, boundary),
        Err(ProgramError::Custom(ScreenWarErrors::ContentionPhase))
    );
}

#[test]
fn withdraw_returns_the_locked_balance_after_contention() {
    let challenge = sample_challenge();
    let user_record = sample_user(6, 123_456, 2);
    let user = AccountView { key: key_of(6), is_signer: true };
    let global = AccountView { key: key_of(2), is_signer: false };
    let challenge_view = AccountView { key: key_of(10), is_signer: false };
    let user_pda = AccountView { key: key_of(11), is_signer: false };
    let clock = AccountView { key: key_of(3), is_signer: false };
    let system = AccountView { key: key_of(4), is_signer: false };
    let accounts = vec![user, global, challenge_view, user_pda, clock, system];
    let data: Vec<u8> = 1u32.to_le_bytes().to_vec();
    let ix = Withdraw::try_from(
        &accounts,
        &data,
        &DerivedPda { key: key_of(11), bump: 252 },
        &DerivedPda { key: key_of(2), bump: 254 },
        &DerivedPda { key: key_of(10), bump: 253 },
    )
    .unwrap();

    assert_eq!(
        ix.process(&challenge, &user_record, challenge.end + FIVE_DAYS),
        Err(ProgramError::Custom(ScreenWarErrors::ContentionPhase))
    );
    assert_eq!(
        ix.process(&challenge, &user_record, challenge.end + FIVE_DAYS + 1),
        Ok(123_456)
    );
}

#[test]
fn take_profit_is_admin_only_and_bounded() {
    let mut global = sample_global();
    global.treasury_profits = 400_000;

    let admin = AccountView { key: key_of(1), is_signer: true };
    let treasury = AccountView { key: key_of(2), is_signer: false };
    let system = AccountView { key: key_of(4), is_signer: false };
    let accounts = vec![admin, treasury, system];
    let data: Vec<u8> = 150_000u64.to_le_bytes().to_vec();
    let ix = TakeProfit::try_from(&accounts, &data, &DerivedPda { key: key_of(2), bump: 254 })
        .unwrap();
    assert_eq!(ix.process(&mut global), Ok(150_000));
    assert_eq!(global.treasury_profits, 250_000);

    let over: Vec<u8> = 250_001u64.to_le_bytes().to_vec();
    let ix = TakeProfit::try_from(&accounts, &over, &DerivedPda { key: key_of(2), bump: 254 })
        .unwrap();
    assert_eq!(
        ix.process(&mut global),
        Err(ProgramError::Custom(ScreenWarErrors::OverClaim))
    );

    let impostor = AccountView { key: key_of(9), is_signer: true };
    let accounts = vec![impostor, treasury, system];
    let ix = TakeProfit::try_from(&accounts, &data, &DerivedPda { key: key_of(2), bump: 254 })
        .unwrap();
    assert_eq!(
        ix.process(&mut global),
        Err(ProgramError::Custom(ScreenWarErrors::NotAdmin))
    );
    assert_eq!(global.treasury_profits, 250_000);
}

#[test]
fn toggle_rejects_setting_the_state_it_already_has() {
    let mut global = sample_global();
    let admin = AccountView { key: key_of(1), is_signer: true };
    let global_view = AccountView { key: key_of(2), is_signer: false };
    let accounts = vec![admin, global_view];
    let derived = DerivedPda { key: key_of(2), bump: 254 };

    let pause: Vec<u8> = vec![1];
    let ix = ToggleChallengeCreation::try_from(&accounts, &pause, &derived).unwrap();
    assert_eq!(ix.process(&mut global), Ok(()));
    assert!(global.challenge_creation_paused);

    let ix = ToggleChallengeCreation::try_from(&accounts, &pause, &derived).unwrap();
    assert_eq!(
        ix.process(&mut global),
        Err(ProgramError::Custom(ScreenWarErrors::ChallengeStateAlreadySet))
    );

    let unpause: Vec<u8> = vec![0];
    let ix = ToggleChallengeCreation::try_from(&accounts, &unpause, &derived).unwrap();
    assert_eq!(ix.process(&mut global), Ok(()));
    assert!(!global.challenge_creation_paused);
}
