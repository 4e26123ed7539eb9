//! The lifecycle tests: initialization, creation and joining, driven
//! through the byte-exact codecs the way the host persists records.

use screen_wars::accounts::AccountView;
use screen_wars::accounts::DerivedPda;
use screen_wars::constants::ONE_DAY;
use screen_wars::constants::TWO_HOURS;
use screen_wars::instructions::CreateChallenge;
use screen_wars::instructions::Initialize;
use screen_wars::instructions::JoinChallenge;
use screen_wars::state::Challenge;
use screen_wars::state::Global;
use screen_wars::state::User;

const JAN_2025: i64 = 1735689600;

fn actor(tag: u8) -> [u8; 32] {
    [tag; 32]
}

fn signer_view(tag: u8) -> AccountView {
    AccountView { key: actor(tag), is_signer: true }
}

fn plain_view(tag: u8) -> AccountView {
    AccountView { key: actor(tag), is_signer: false }
}

fn setup_initialized_global() -> (Global, AccountView, DerivedPda) {
    let admin = signer_view(1);
    let global_pda = plain_view(2);
    let rent_sysvar = plain_view(3);
    let system_program = plain_view(4);
    let global_derived = DerivedPda { key: global_pda.key, bump: 254 };
    let accounts = vec![admin, global_pda, rent_sysvar, system_program];
    let ix = Initialize::try_from(&accounts, &global_derived).unwrap();
    (ix.process(), admin, global_derived)
}

fn run_create_challenge(
    global: &mut Global,
    global_derived: &DerivedPda,
    creator_tag: u8,
    start_time: i64,
    daily_timer: i64,
    now: i64,
) -> Result<Challenge, screen_wars::custom_errors::ProgramError> {
    let creator = signer_view(creator_tag);
    let global_pda = plain_view(2);
    let challenge_pda = plain_view(10);
    let rent_sysvar = plain_view(3);
    let system_program = plain_view(4);
    let challenge_derived = DerivedPda { key: challenge_pda.key, bump: 253 };
    let accounts = vec![creator, global_pda, challenge_pda, rent_sysvar, system_program];
    let mut data: Vec<u8> = Vec::new();
    data.extend_from_slice(&start_time.to_le_bytes());
    data.extend_from_slice(&daily_timer.to_le_bytes());
    let ix = CreateChallenge::try_from(
        &accounts,
        &data,
        global,
        global_derived,
        &challenge_derived,
        now,
    )?;
    ix.process(global)
}

#[test]
pub fn test_initialize_screen_wars() {
    let (global, admin, global_derived) = setup_initialized_global();

    // persist and reload through the byte-exact record codec, as the
    // host store does
    let raw_data = global.pack();
    let decoded_data = Global::load(&raw_data).unwrap();

    assert!(decoded_data.admin == admin.key);
    assert!(decoded_data.treasury == global_derived.key);
    assert!(decoded_data.challenge_ids == 1);
    assert!(decoded_data.treasury_profits == 0);
    assert!(!decoded_data.challenge_creation_paused);
}

#[test]
pub fn test_create_challenge() {
    let (mut global, _admin, global_derived) = setup_initialized_global();

    let now = JAN_2025;
    let start_time = now + ONE_DAY;
    let daily_timer = TWO_HOURS - 1;

    let challenge =
        run_create_challenge(&mut global, &global_derived, 5, start_time, daily_timer, now)
            .unwrap();

    let challenge_raw_data = challenge.pack();
    let challenge = Challenge::load(&challenge_raw_data).unwrap();

    assert!(
        global.challenge_ids == 2,
        "challenge ids must be incremented by 1 after creation"
    );

    assert!(
        challenge.challenge_id == 1,
        "first challenge's id must be equal to 1"
    );
    assert!(
        challenge.creator == actor(5),
        "since jeff created challenge he must be the nominated as creator"
    );
}

#[test]
pub fn test_join_challenge() {
    let (mut global, _admin, global_derived) = setup_initialized_global();
    let now = JAN_2025;
    let start_time = now + ONE_DAY;
    let mut challenge =
        run_create_challenge(&mut global, &global_derived, 5, start_time, TWO_HOURS - 1, now)
            .unwrap();

    let user = signer_view(6);
    let challenge_pda = plain_view(10);
    let user_pda = plain_view(11);
    let rent_sysvar = plain_view(3);
    let system_program = plain_view(4);
    let user_pda_derived = DerivedPda { key: user_pda.key, bump: 252 };
    let challenge_derived = DerivedPda { key: challenge_pda.key, bump: 253 };
    let accounts = vec![user, challenge_pda, user_pda, rent_sysvar, system_program];
    let data: Vec<u8> = 1u32.to_le_bytes().to_vec();

    let ix = JoinChallenge::try_from(&accounts, &data, &user_pda_derived, &challenge_derived)
        .unwrap();
    let joined = ix.process(&mut challenge, now).unwrap();

    let user_pda_raw_data = joined.pack();
    let user_pda = User::load(&user_pda_raw_data).unwrap();

    assert!(
        user_pda.user == actor(6),
        "bergs key must be stored in his joining pda"
    );

    assert!(
        user_pda.challenge_id == 1,
        "user joined challenge id must be stored correctly in his pda"
    );

    assert!(
        user_pda.streak == 0,
        "users cant have positive streak just by joining challenge"
    );

    assert!(
        challenge.total_participants == 1,
        "challenge participants must increment after join"
    );
    assert!(
        user_pda.locked_balance == 0,
        "users cant have positive locked_balance just by joining challenge"
    );

    println!("flawed locked balance : {}", user_pda.locked_balance);
    println!(
        "flawed total pariticipants: {}",
        challenge.total_participants
    );
}
