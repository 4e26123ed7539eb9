//! The protocol's fixed quantities: window lengths, the daily deposit
//! rate, and the fixed-point economics scale.

use vstd::prelude::*;

verus! {

/// The longest daily check-in window a challenge may configure, exclusive.
pub const TWO_HOURS: i64 = 7200;

/// One day of the challenge calendar, in seconds.
pub const ONE_DAY: i64 = 86400;

/// One week, in seconds: the farthest a challenge may start in the future,
/// exclusive.
pub const ONE_WEEK: i64 = 604800;

/// The fixed length of every challenge window: exactly 21 days.
pub const THREE_WEEKS: i64 = 1814400;

/// The contention window after a challenge ends, during which the winner
/// position may still be claimed or replaced.
pub const FIVE_DAYS: i64 = 432000;

/// The value a participant deposits to the treasury per due day.
pub const DAILY_LAMPORTS: u64 = 10_000_000;

/// The fixed-point scale of the economics engine: 1.0 == 1,000,000.
pub const SCALE: u128 = 1_000_000;

/// The balance retention factor per missed day: 75% at [`SCALE`].
pub const RATE_75_PERCENT: u128 = 750_000;

/// The winner's share of the slashed pool: 50% at [`SCALE`].
pub const SCALED_50_PERCENT: u128 = 500_000;

/// The creator's share of the slashed pool: 10% at [`SCALE`].
pub const SCALED_10_PERCENT: u128 = 100_000;

} // verus!
