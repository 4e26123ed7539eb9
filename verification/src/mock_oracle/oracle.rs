//! The stubbed attendance oracle.

use vstd::prelude::*;
use crate::custom_errors::ProgramError;

verus! {

/// A caller-supplied attendance override, carried in the sync payload.
#[derive(Clone, Copy, Debug, PartialEq, Eq)]
pub struct DebugData {
    pub user_passed: bool,
    pub days_not_synced: u8,
    pub synced_today: bool,
}

/// The answer the oracle returns: `(passed_today, days_not_synced,
/// synced_today)`. With an override it is the override verbatim; without
/// one it is the stub default "passed today, no prior misses, not yet
/// synced".
pub open spec fn spec_oracle_answer(debug: Option<DebugData>) -> (bool, u8, bool) {
    match debug {
        Some(data) => (data.user_passed, data.days_not_synced, data.synced_today),
        None => (true, 0u8, false),
    }
}

/// The attendance collaborator stub. It never fails; the `Result` shape
/// is the contract a production oracle component would share.
pub fn mock_offchain_oracle_component(debug: Option<DebugData>) -> (r: Result<
    (bool, u8, bool),
    ProgramError,
>)
    ensures
        r == Ok::<(bool, u8, bool), ProgramError>(spec_oracle_answer(debug)),
{
    let user_passed: bool;
    let days_not_synced: u8;
    let synced_today: bool;

    match debug {
        Some(data) => {
            user_passed = data.user_passed;
            days_not_synced = data.days_not_synced;
            synced_today = data.synced_today;
        },
        None => {
            user_passed = true;
            days_not_synced = 0;
            synced_today = false;
        },
    }

    Ok((user_passed, days_not_synced, synced_today))
}

} // verus!
