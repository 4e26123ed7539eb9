//! An end-to-end scenario: initialize the deployment, create a
//! challenge, watch a second creation fail its window check, and join.

use screen_wars::accounts::AccountView;
use screen_wars::accounts::DerivedPda;
use screen_wars::constants::THREE_WEEKS;
use screen_wars::custom_errors::ProgramError;
use screen_wars::custom_errors::ScreenWarErrors;
use screen_wars::instructions::CreateChallenge;
use screen_wars::instructions::Initialize;
use screen_wars::instructions::JoinChallenge;

const T: i64 = 1735689600;

fn who(tag: u8) -> [u8; 32] {
    [tag; 32]
}

#[test]
fn end_to_end_initialize_create_join() {
    // initialize: the admin funds the singleton Global record
    let admin = AccountView { key: who(1), is_signer: true };
    let global_pda = AccountView { key: who(2), is_signer: false };
    let rent = AccountView { key: who(3), is_signer: false };
    let system = AccountView { key: who(4), is_signer: false };
    let global_derived = DerivedPda { key: who(2), bump: 254 };
    let init_accounts = vec![admin, global_pda, rent, system];
    let mut global = Initialize::try_from(&init_accounts, &global_derived).unwrap().process();
    assert_eq!(global.admin, who(1));
    assert_eq!(global.treasury, who(2));
    assert_eq!(global.challenge_ids, 1);
    assert!(!global.challenge_creation_paused);
    assert_eq!(global.treasury_profits, 0);

    // create a challenge one day and one second out
    let creator = AccountView { key: who(5), is_signer: true };
    let challenge_pda = AccountView { key: who(10), is_signer: false };
    let challenge_derived = DerivedPda { key: who(10), bump: 253 };
    let create_accounts = vec![creator, global_pda, challenge_pda, rent, system];
    let start = T + 86400 + 1;
    let mut data = Vec::new();
    data.extend_from_slice(&start.to_le_bytes());
    data.extend_from_slice(&7199i64.to_le_bytes());
    let ix = CreateChallenge::try_from(
        &create_accounts,
        &data,
        &global,
        &global_derived,
        &challenge_derived,
        T,
    )
    .unwrap();
    let mut challenge = ix.process(&mut global).unwrap();
    assert_eq!(challenge.challenge_id, 1);
    assert_eq!(global.challenge_ids, 2);
    assert_eq!(challenge.start, start);
    assert_eq!(challenge.end, start + THREE_WEEKS);

    // a second creation starting in half an hour is too soon
    let mut early = Vec::new();
    early.extend_from_slice(&(T + 1800).to_le_bytes());
    early.extend_from_slice(&7199i64.to_le_bytes());
    let refused = CreateChallenge::try_from(
        &create_accounts,
        &early,
        &global,
        &global_derived,
        &challenge_derived,
        T,
    );
    assert!(matches!(
        refused,
        Err(ProgramError::Custom(ScreenWarErrors::ChallengeStartsTooSoon))
    ));

    // join before the start
    let user = AccountView { key: who(6), is_signer: true };
    let user_pda = AccountView { key: who(11), is_signer: false };
    let user_pda_derived = DerivedPda { key: who(11), bump: 252 };
    let join_accounts = vec![user, challenge_pda, user_pda, rent, system];
    let join_data: Vec<u8> = 1u32.to_le_bytes().to_vec();
    let join = JoinChallenge::try_from(
        &join_accounts,
        &join_data,
        &user_pda_derived,
        &challenge_derived,
    )
    .unwrap();
    let record = join.process(&mut challenge, T).unwrap();
    assert_eq!(record.streak, 0);
    assert_eq!(record.locked_balance, 0);
    assert_eq!(record.challenge_id, 1);
    assert_eq!(challenge.total_participants, 1);

    // joining after the start is late
    let late = JoinChallenge::try_from(
        &join_accounts,
        &join_data,
        &user_pda_derived,
        &challenge_derived,
    )
    .unwrap();
    assert!(matches!(
        late.process(&mut challenge, start + 1),
        Err(ProgramError::Custom(ScreenWarErrors::JoinedLate))
    ));
    assert_eq!(challenge.total_participants, 1);
}
