//! The record store: the three fixed-size, byte-exact persisted record
//! kinds, with their pack/load codecs.

pub mod challenge;
pub mod global;
pub mod user;

pub use challenge::Challenge;
pub use challenge::CHALLENGE_RECORD_LEN;
pub use global::Global;
pub use global::GLOBAL_RECORD_LEN;
pub use user::User;
pub use user::USER_RECORD_LEN;
