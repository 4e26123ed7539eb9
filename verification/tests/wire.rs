//! The wire format and the record store: opcode routing, payload
//! validation, account authorization, and byte-exact codec round trips.

use screen_wars::accounts::AccountView;
use screen_wars::accounts::DerivedPda;
use screen_wars::constants::ONE_DAY;
use screen_wars::constants::ONE_WEEK;
use screen_wars::constants::THREE_WEEKS;
use screen_wars::constants::TWO_HOURS;
use screen_wars::custom_errors::ProgramError;
use screen_wars::custom_errors::ScreenWarErrors;
use screen_wars::instructions::CreateChallenge;
use screen_wars::instructions::Initialize;
use screen_wars::instructions::JoinChallenge;
use screen_wars::process_instruction;
use screen_wars::state::Challenge;
use screen_wars::state::Global;
use screen_wars::state::User;
use screen_wars::DecodedInstruction;

const NOW: i64 = 1735689600;

fn id(tag: u8) -> [u8; 32] {
    [tag; 32]
}

#[test]
fn dispatcher_rejects_empty_and_unknown_instructions() {
    assert_eq!(
        process_instruction(&[], NOW),
        Err(ProgramError::InvalidInstructionData)
    );
    assert_eq!(
        process_instruction(&[10], NOW),
        Err(ProgramError::InvalidInstructionData)
    );
    assert_eq!(
        process_instruction(&[255, 1, 2, 3], NOW),
        Err(ProgramError::InvalidInstructionData)
    );
}

#[test]
fn dispatcher_routes_every_opcode() {
    assert!(matches!(
        process_instruction(&[0], NOW),
        Ok(DecodedInstruction::Initialize)
    ));

    let mut create = vec![1u8];
    create.extend_from_slice(&(NOW + ONE_DAY).to_le_bytes());
    create.extend_from_slice(&(TWO_HOURS - 1).to_le_bytes());
    match process_instruction(&create, NOW) {
        Ok(DecodedInstruction::CreateChallenge(d)) => {
            assert_eq!(d.start_time, NOW + ONE_DAY);
            assert_eq!(d.daily_timer, TWO_HOURS - 1);
        },
        other => panic!("unexpected decode: {:?}", other.is_ok()),
    }

    let mut join = vec![2u8];
    join.extend_from_slice(&7u32.to_le_bytes());
    match process_instruction(&join, NOW) {
        Ok(DecodedInstruction::JoinChallenge(d)) => assert_eq!(d.challenge_id, 7),
        other => panic!("unexpected decode: {:?}", other.is_ok()),
    }

    let mut withdraw = vec![3u8];
    withdraw.extend_from_slice(&7u32.to_le_bytes());
    assert!(matches!(
        process_instruction(&withdraw, NOW),
        Ok(DecodedInstruction::Withdraw(_))
    ));

    let mut claim_position = vec![4u8];
    claim_position.extend_from_slice(&7u32.to_le_bytes());
    assert!(matches!(
        process_instruction(&claim_position, NOW),
        Ok(DecodedInstruction::ClaimWinnerPosition(_))
    ));

    assert!(matches!(
        process_instruction(&[5, 1], NOW),
        Ok(DecodedInstruction::ToggleChallengeCreation(_))
    ));

    let mut take_profit = vec![6u8];
    take_profit.extend_from_slice(&9u64.to_le_bytes());
    assert!(matches!(
        process_instruction(&take_profit, NOW),
        Ok(DecodedInstruction::TakeProfit(_))
    ));

    assert!(matches!(
        process_instruction(&[7], NOW),
        Ok(DecodedInstruction::ClaimWinnerReward(_))
    ));
    assert!(matches!(
        process_instruction(&[8], NOW),
        Ok(DecodedInstruction::ClaimCreatorReward(_))
    ));

    let mut sync = vec![9u8];
    sync.extend_from_slice(&7u32.to_le_bytes());
    sync.extend_from_slice(&[1, 1, 2, 0]);
    match process_instruction(&sync, NOW) {
        Ok(DecodedInstruction::SyncLock(d)) => {
            assert_eq!(d.challenge_id, 7);
            let debug = d.debug_data.unwrap();
            assert!(debug.user_passed);
            assert_eq!(debug.days_not_synced, 2);
            assert!(!debug.synced_today);
        },
        other => panic!("unexpected decode: {:?}", other.is_ok()),
    }
}

#[test]
fn dispatcher_rejects_malformed_payloads() {
    // truncated creation payload
    assert_eq!(
        process_instruction(&[1, 1, 2, 3], NOW),
        Err(ProgramError::InvalidInstructionData)
    );
    // join with the wrong width
    assert_eq!(
        process_instruction(&[2, 1, 2, 3, 4, 5], NOW),
        Err(ProgramError::InvalidInstructionData)
    );
    // toggle with a byte that is neither 0 nor 1
    assert_eq!(
        process_instruction(&[5, 2], NOW),
        Err(ProgramError::InvalidInstructionData)
    );
    // reward claims take an empty payload
    assert_eq!(
        process_instruction(&[7, 0], NOW),
        Err(ProgramError::InvalidInstructionData)
    );
    // sync payload must be exactly 8 bytes
    assert_eq!(
        process_instruction(&[9, 1, 0, 0, 0], NOW),
        Err(ProgramError::InvalidInstructionData)
    );
}

#[test]
fn creation_window_boundaries_give_their_specific_errors() {
    let build = |start: i64, timer: i64| {
        let mut data = vec![1u8];
        data.extend_from_slice(&start.to_le_bytes());
        data.extend_from_slice(&timer.to_le_bytes());
        data
    };
    assert_eq!(
        process_instruction(&build(NOW + ONE_DAY - 1, 0), NOW),
        Err(ProgramError::Custom(ScreenWarErrors::ChallengeStartsTooSoon))
    );
    assert_eq!(
        process_instruction(&build(NOW + ONE_WEEK, 0), NOW),
        Err(ProgramError::Custom(ScreenWarErrors::ChallengeStartsTooFar))
    );
    assert_eq!(
        process_instruction(&build(NOW + ONE_DAY, TWO_HOURS), NOW),
        Err(ProgramError::Custom(ScreenWarErrors::ChallengeExceedsTwoHours))
    );
    assert!(process_instruction(&build(NOW + ONE_WEEK - 1, TWO_HOURS - 1), NOW).is_ok());
}

#[test]
fn account_authorization_failures_are_specific() {
    let admin = AccountView { key: id(1), is_signer: true };
    let unsigned_admin = AccountView { key: id(1), is_signer: false };
    let global_pda = AccountView { key: id(2), is_signer: false };
    let rent = AccountView { key: id(3), is_signer: false };
    let system = AccountView { key: id(4), is_signer: false };
    let derived = DerivedPda { key: id(2), bump: 254 };

    let short = vec![admin, global_pda];
    assert!(matches!(
        Initialize::try_from(&short, &derived),
        Err(ProgramError::NotEnoughAccountKeys)
    ));

    let unsigned = vec![unsigned_admin, global_pda, rent, system];
    assert!(matches!(
        Initialize::try_from(&unsigned, &derived),
        Err(ProgramError::Custom(ScreenWarErrors::NotSigner))
    ));

    let wrong_global = DerivedPda { key: id(9), bump: 254 };
    let accounts = vec![admin, global_pda, rent, system];
    assert!(matches!(
        Initialize::try_from(&accounts, &wrong_global),
        Err(ProgramError::InvalidSeeds)
    ));

    // a join whose participant record stands at the wrong address
    let user = AccountView { key: id(6), is_signer: true };
    let challenge_pda = AccountView { key: id(10), is_signer: false };
    let user_pda = AccountView { key: id(11), is_signer: false };
    let join_accounts = vec![user, challenge_pda, user_pda, rent, system];
    let data: Vec<u8> = 1u32.to_le_bytes().to_vec();
    assert!(matches!(
        JoinChallenge::try_from(
            &join_accounts,
            &data,
            &DerivedPda { key: id(12), bump: 9 },
            &DerivedPda { key: id(10), bump: 8 },
        ),
        Err(ProgramError::Custom(ScreenWarErrors::InvalidUserPDA))
    ));
    // ... or whose challenge record does
    assert!(matches!(
        JoinChallenge::try_from(
            &join_accounts,
            &data,
            &DerivedPda { key: id(11), bump: 9 },
            &DerivedPda { key: id(13), bump: 8 },
        ),
        Err(ProgramError::Custom(ScreenWarErrors::InvalidChallengePDA))
    ));
}

#[test]
fn paused_creation_is_rejected() {
    let creator = AccountView { key: id(5), is_signer: true };
    let global_pda = AccountView { key: id(2), is_signer: false };
    let challenge_pda = AccountView { key: id(10), is_signer: false };
    let rent = AccountView { key: id(3), is_signer: false };
    let system = AccountView { key: id(4), is_signer: false };
    let accounts = vec![creator, global_pda, challenge_pda, rent, system];
    let mut data = Vec::new();
    data.extend_from_slice(&(NOW + ONE_DAY).to_le_bytes());
    data.extend_from_slice(&0i64.to_le_bytes());
    let global = Global {
        admin: id(1),
        treasury: id(2),
        treasury_profits: 0,
        challenge_ids: 1,
        challenge_creation_paused: true,
        bump: 254,
    };
    assert!(matches!(
        CreateChallenge::try_from(
            &accounts,
            &data,
            &global,
            &DerivedPda { key: id(2), bump: 254 },
            &DerivedPda { key: id(10), bump: 253 },
            NOW,
        ),
        Err(ProgramError::Custom(ScreenWarErrors::ChallengeCreationPaused))
    ));
}

#[test]
fn global_record_roundtrips_byte_exactly() {
    let g = Global {
        admin: id(1),
        treasury: id(2),
        treasury_profits: 123_456_789,
        challenge_ids: 42,
        challenge_creation_paused: true,
        bump: 254,
    };
    let bytes = g.pack();
    assert_eq!(bytes.len(), 78);
    let g2 = Global::load(&bytes).unwrap();
    assert_eq!(g, g2);
    assert_eq!(g2.pack(), bytes);

    assert!(matches!(
        Global::load(&bytes[..77]),
        Err(ProgramError::InvalidAccountData)
    ));
    let mut corrupt = bytes.clone();
    corrupt[76] = 2;
    assert!(matches!(
        Global::load(&corrupt),
        Err(ProgramError::InvalidAccountData)
    ));
}

#[test]
fn challenge_record_roundtrips_byte_exactly() {
    let c = Challenge {
        creator: id(5),
        challenge_id: 7,
        daily_timer: -3,
        start: NOW,
        end: NOW + THREE_WEEKS,
        total_slashed: u64::MAX,
        winner: id(6),
        winner_streak: 21,
        winner_has_claimed: true,
        creator_has_claimed: false,
        total_participants: 99,
        bump: 251,
    };
    let bytes = c.pack();
    assert_eq!(bytes.len(), 108);
    let c2 = Challenge::load(&bytes).unwrap();
    assert_eq!(c, c2);
    assert_eq!(c2.pack(), bytes);

    assert!(matches!(
        Challenge::load(&bytes[..100]),
        Err(ProgramError::InvalidAccountData)
    ));
    let mut corrupt = bytes.clone();
    corrupt[102] = 7;
    assert!(matches!(
        Challenge::load(&corrupt),
        Err(ProgramError::InvalidAccountData)
    ));
}

#[test]
fn user_record_roundtrips_byte_exactly() {
    let u = User {
        user: id(6),
        challenge_id: 7,
        locked_balance: 10_000_000,
        streak: 3,
        bump: 252,
    };
    let bytes = u.pack();
    assert_eq!(bytes.len(), 46);
    let u2 = User::load(&bytes).unwrap();
    assert_eq!(u, u2);
    assert_eq!(u2.pack(), bytes);

    assert!(matches!(
        User::load(&bytes[..45]),
        Err(ProgramError::Custom(ScreenWarErrors::InvalidPdaDataLen))
    ));
}

#[test]
fn record_layouts_match_the_persisted_field_offsets() {
    let c = Challenge {
        creator: id(5),
        challenge_id: 0x04030201,
        daily_timer: 7199,
        start: NOW,
        end: NOW + THREE_WEEKS,
        total_slashed: 0x1122334455667788,
        winner: id(6),
        winner_streak: 9,
        winner_has_claimed: false,
        creator_has_claimed: true,
        total_participants: 0x0a0b0c0d,
        bump: 250,
    };
    let bytes = c.pack();
    assert_eq!(&bytes[0..32], &[5u8; 32]);
    assert_eq!(&bytes[32..36], &[1, 2, 3, 4]);
    assert_eq!(&bytes[36..44], &7199i64.to_le_bytes());
    assert_eq!(&bytes[44..52], &NOW.to_le_bytes());
    assert_eq!(&bytes[52..60], &(NOW + THREE_WEEKS).to_le_bytes());
    assert_eq!(&bytes[60..68], &0x1122334455667788u64.to_le_bytes());
    assert_eq!(&bytes[68..100], &[6u8; 32]);
    assert_eq!(bytes[100], 9);
    assert_eq!(bytes[101], 0);
    assert_eq!(bytes[102], 1);
    assert_eq!(&bytes[103..107], &[0x0d, 0x0c, 0x0b, 0x0a]);
    assert_eq!(bytes[107], 250);
}

#[test]
fn error_codes_follow_declaration_order() {
    assert_eq!(ScreenWarErrors::InvalidGlobalPDA.code(), 0);
    assert_eq!(ScreenWarErrors::ChallengeCreationPaused.code(), 4);
    assert_eq!(ScreenWarErrors::LowerStreak.code(), 13);
    assert_eq!(ScreenWarErrors::IntegerOverflow.code(), 25);
    assert_eq!(
        ProgramError::from(ScreenWarErrors::NotAdmin),
        ProgramError::Custom(ScreenWarErrors::NotAdmin)
    );
}
