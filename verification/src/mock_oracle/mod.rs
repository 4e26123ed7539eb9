//! The attendance collaborator: the pluggable source of the daily
//! "did the user complete today's activity" answer.

pub mod oracle;

pub use oracle::mock_offchain_oracle_component;
pub use oracle::spec_oracle_answer;
pub use oracle::DebugData;
