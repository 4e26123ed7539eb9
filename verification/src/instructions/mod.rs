//! The instruction handlers: one module per operation, each split into
//! account resolution/authorization, payload decoding, and execution.

pub mod claim_winner_position;
pub mod create_challenge;
pub mod initialize;
pub mod join_challenge;
pub mod rewards;
pub mod sync_lock;
pub mod take_profit;
pub mod toggle_challenge_creation;
pub mod withdraw;

pub use claim_winner_position::ClaimWinnerPosition;
pub use claim_winner_position::ClaimWinnerPositionAccounts;
pub use claim_winner_position::ClaimWinnerPositionInstructionData;
pub use create_challenge::CreateChallenge;
pub use create_challenge::CreateChallengeAccounts;
pub use create_challenge::CreateChallengeInstructionData;
pub use initialize::Initialize;
pub use initialize::InitializeAccounts;
pub use join_challenge::JoinChallenge;
pub use join_challenge::JoinChallengeAccounts;
pub use join_challenge::JoinChallengeInstructionData;
pub use rewards::ClaimRewards;
pub use rewards::ClaimRewardsAccounts;
pub use rewards::ClaimRewardsInstructionData;
pub use sync_lock::SyncLock;
pub use sync_lock::SyncLockAccounts;
pub use sync_lock::SyncLockInstructionData;
pub use take_profit::TakeProfit;
pub use take_profit::TakeProfitAccounts;
pub use take_profit::TakeProfitInstructionData;
pub use toggle_challenge_creation::ToggleChallengeCreation;
pub use toggle_challenge_creation::ToggleChallengeCreationAccounts;
pub use toggle_challenge_creation::ToggleChallengeCreationInstructionData;
pub use withdraw::Withdraw;
pub use withdraw::WithdrawAccounts;
pub use withdraw::WithdrawInstructionData;
