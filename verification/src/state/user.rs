//! The per-participant User record: one live record per identity.

use vstd::prelude::*;
use vstd::bytes::{spec_u32_from_le_bytes, spec_u32_to_le_bytes, spec_u64_from_le_bytes,
    spec_u64_to_le_bytes, lemma_auto_spec_u32_to_from_le_bytes, lemma_auto_spec_u64_to_from_le_bytes};
use crate::accounts::Pubkey;
use crate::codec::{push_pubkey, push_u32_le, push_u64_le, push_u8, read_pubkey, read_u32_le,
    read_u64_le, read_u8};
use crate::custom_errors::{ProgramError, ScreenWarErrors};

verus! {

/// Byte length of a packed User record:
/// user 32, challenge_id 4, locked_balance 8, streak 1, bump 1.
pub const USER_RECORD_LEN: usize = 46;

/// A participant's enrollment record, created on join with zero balance
/// and zero streak.
///
/// `challenge_id` binds the record to exactly one challenge and never
/// changes afterwards; `locked_balance` is the staked value net of
/// penalties and credits; `streak` counts consecutive successful daily
/// check-ins.
#[derive(Clone, Copy, Debug, PartialEq, Eq)]
pub struct User {
    pub user: Pubkey,
    pub challenge_id: u32,
    pub locked_balance: u64,
    pub streak: u8,
    pub bump: u8,
}

impl User {
    /// The exact packed image of this record.
    pub open spec fn spec_pack(self) -> Seq<u8> {
        self.user@ + spec_u32_to_le_bytes(self.challenge_id)
            + spec_u64_to_le_bytes(self.locked_balance) + seq![self.streak] + seq![self.bump]
    }

    /// Serializes the record into its byte-exact persisted layout.
    pub fn pack(&self) -> (out: Vec<u8>)
        ensures
            out@ == self.spec_pack(),
            out@.len() == USER_RECORD_LEN,
    {
        let mut out: Vec<u8> = Vec::new();
        push_pubkey(&mut out, &self.user);
        push_u32_le(&mut out, self.challenge_id);
        push_u64_le(&mut out, self.locked_balance);
        push_u8(&mut out, self.streak);
        push_u8(&mut out, self.bump);
        proof {
            lemma_auto_spec_u32_to_from_le_bytes();
            lemma_auto_spec_u64_to_from_le_bytes();
            assert(out@ =~= self.spec_pack());
        }
        out
    }

    /// Deserializes a record, validating the buffer length before
    /// interpreting any field; a loaded record packs back to the very
    /// same bytes.
    pub fn load(bytes: &[u8]) -> (r: Result<User, ProgramError>)
        ensures
            r is Ok <==> bytes@.len() == USER_RECORD_LEN,
            r is Ok ==> r->Ok_0.spec_pack() == bytes@,
            r is Err ==> r->Err_0 == ProgramError::Custom(ScreenWarErrors::InvalidPdaDataLen),
    {
        if bytes.len() != USER_RECORD_LEN {
            return Err(ProgramError::Custom(ScreenWarErrors::InvalidPdaDataLen));
        }
        let user = read_pubkey(bytes, 0);
        let challenge_id = read_u32_le(bytes, 32);
        let locked_balance = read_u64_le(bytes, 36);
        let streak = read_u8(bytes, 44);
        let bump = read_u8(bytes, 45);
        let u = User { user, challenge_id, locked_balance, streak, bump };
        proof {
            lemma_auto_spec_u32_to_from_le_bytes();
            lemma_auto_spec_u64_to_from_le_bytes();
            assert(u.spec_pack() =~= bytes@);
        }
        Ok(u)
    }
}

/// The byte-exact layout of a packed User record: each field's bytes
/// stand at their fixed offset.
pub proof fn lemma_user_layout(u: User)
    ensures
        u.spec_pack().len() == USER_RECORD_LEN,
        u.spec_pack().subrange(0, 32) == u.user@,
        u.spec_pack().subrange(32, 36) == spec_u32_to_le_bytes(u.challenge_id),
        u.spec_pack().subrange(36, 44) == spec_u64_to_le_bytes(u.locked_balance),
        u.spec_pack()[44] == u.streak,
        u.spec_pack()[45] == u.bump,
{
    lemma_auto_spec_u32_to_from_le_bytes();
    lemma_auto_spec_u64_to_from_le_bytes();
    assert(u.spec_pack().subrange(0, 32) =~= u.user@);
    assert(u.spec_pack().subrange(32, 36) =~= spec_u32_to_le_bytes(u.challenge_id));
    assert(u.spec_pack().subrange(36, 44) =~= spec_u64_to_le_bytes(u.locked_balance));
}

/// The packed image determines the record: two records with the same
/// bytes agree on every field (identities compared by content).
pub proof fn lemma_user_pack_injective(a: User, b: User)
    requires
        a.spec_pack() == b.spec_pack(),
    ensures
        a.user@ == b.user@,
        a.challenge_id == b.challenge_id,
        a.locked_balance == b.locked_balance,
        a.streak == b.streak,
        a.bump == b.bump,
{
    lemma_auto_spec_u32_to_from_le_bytes();
    lemma_auto_spec_u64_to_from_le_bytes();
    lemma_user_layout(a);
    lemma_user_layout(b);
}

} // verus!
