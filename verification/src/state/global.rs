//! The singleton Global record: deployment-wide administration and
//! treasury accounting.

use vstd::prelude::*;
use vstd::bytes::{spec_u32_from_le_bytes, spec_u32_to_le_bytes, spec_u64_from_le_bytes,
    spec_u64_to_le_bytes, lemma_auto_spec_u32_to_from_le_bytes, lemma_auto_spec_u64_to_from_le_bytes};
use crate::accounts::Pubkey;
use crate::codec::{is_bool_byte, push_bool, push_pubkey, push_u32_le, push_u64_le, push_u8,
    read_pubkey, read_u32_le, read_u64_le, read_u8, spec_bool_to_byte};
use crate::custom_errors::ProgramError;

verus! {

/// Byte length of a packed Global record:
/// admin 32, treasury 32, treasury_profits 8, challenge_ids 4, paused 1, bump 1.
pub const GLOBAL_RECORD_LEN: usize = 78;

/// The singleton record, one per deployment: created once by `Initialize`
/// and never destroyed.
///
/// `challenge_ids` is the next challenge id to assign; `treasury_profits`
/// is the protocol profit accrued in the treasury and claimable by the
/// admin.
#[derive(Clone, Copy, Debug, PartialEq, Eq)]
pub struct Global {
    pub admin: Pubkey,
    pub treasury: Pubkey,
    pub treasury_profits: u64,
    pub challenge_ids: u32,
    pub challenge_creation_paused: bool,
    pub bump: u8,
}

impl Global {
    /// The exact packed image of this record: every field at a fixed
    /// offset, in declaration order, little-endian, no padding.
    pub open spec fn spec_pack(self) -> Seq<u8> {
        self.admin@ + self.treasury@ + spec_u64_to_le_bytes(self.treasury_profits)
            + spec_u32_to_le_bytes(self.challenge_ids)
            + seq![spec_bool_to_byte(self.challenge_creation_paused)] + seq![self.bump]
    }

    /// Serializes the record into its byte-exact persisted layout.
    pub fn pack(&self) -> (out: Vec<u8>)
        ensures
            out@ == self.spec_pack(),
            out@.len() == GLOBAL_RECORD_LEN,
    {
        let mut out: Vec<u8> = Vec::new();
        push_pubkey(&mut out, &self.admin);
        push_pubkey(&mut out, &self.treasury);
        push_u64_le(&mut out, self.treasury_profits);
        push_u32_le(&mut out, self.challenge_ids);
        push_bool(&mut out, self.challenge_creation_paused);
        push_u8(&mut out, self.bump);
        proof {
            lemma_auto_spec_u32_to_from_le_bytes();
            lemma_auto_spec_u64_to_from_le_bytes();
            assert(out@ =~= self.spec_pack());
        }
        out
    }

    /// Deserializes a record, validating the buffer length before
    /// interpreting any field; a loaded record packs back to the very
    /// same bytes.
    pub fn load(bytes: &[u8]) -> (r: Result<Global, ProgramError>)
        ensures
            r is Ok <==> bytes@.len() == GLOBAL_RECORD_LEN && is_bool_byte(bytes@[76]),
            r is Ok ==> r->Ok_0.spec_pack() == bytes@,
            r is Err ==> r->Err_0 == ProgramError::InvalidAccountData,
    {
        if bytes.len() != GLOBAL_RECORD_LEN {
            return Err(ProgramError::InvalidAccountData);
        }
        let admin = read_pubkey(bytes, 0);
        let treasury = read_pubkey(bytes, 32);
        let treasury_profits = read_u64_le(bytes, 64);
        let challenge_ids = read_u32_le(bytes, 72);
        let paused_byte = read_u8(bytes, 76);
        if paused_byte > 1 {
            return Err(ProgramError::InvalidAccountData);
        }
        let bump = read_u8(bytes, 77);
        let g = Global {
            admin,
            treasury,
            treasury_profits,
            challenge_ids,
            challenge_creation_paused: paused_byte == 1,
            bump,
        };
        proof {
            lemma_auto_spec_u32_to_from_le_bytes();
            lemma_auto_spec_u64_to_from_le_bytes();
            assert(g.spec_pack() =~= bytes@);
        }
        Ok(g)
    }
}

/// The byte-exact layout of a packed Global record: each field's bytes
/// stand at their fixed offset.
pub proof fn lemma_global_layout(g: Global)
    ensures
        g.spec_pack().len() == GLOBAL_RECORD_LEN,
        g.spec_pack().subrange(0, 32) == g.admin@,
        g.spec_pack().subrange(32, 64) == g.treasury@,
        g.spec_pack().subrange(64, 72) == spec_u64_to_le_bytes(g.treasury_profits),
        g.spec_pack().subrange(72, 76) == spec_u32_to_le_bytes(g.challenge_ids),
        g.spec_pack()[76] == spec_bool_to_byte(g.challenge_creation_paused),
        g.spec_pack()[77] == g.bump,
{
    lemma_auto_spec_u32_to_from_le_bytes();
    lemma_auto_spec_u64_to_from_le_bytes();
    assert(g.spec_pack().subrange(0, 32) =~= g.admin@);
    assert(g.spec_pack().subrange(32, 64) =~= g.treasury@);
    assert(g.spec_pack().subrange(64, 72) =~= spec_u64_to_le_bytes(g.treasury_profits));
    assert(g.spec_pack().subrange(72, 76) =~= spec_u32_to_le_bytes(g.challenge_ids));
}

/// The packed image determines the record: two records with the same
/// bytes agree on every field (identities compared by content).
pub proof fn lemma_global_pack_injective(a: Global, b: Global)
    requires
        a.spec_pack() == b.spec_pack(),
    ensures
        a.admin@ == b.admin@,
        a.treasury@ == b.treasury@,
        a.treasury_profits == b.treasury_profits,
        a.challenge_ids == b.challenge_ids,
        a.challenge_creation_paused == b.challenge_creation_paused,
        a.bump == b.bump,
{
    lemma_auto_spec_u32_to_from_le_bytes();
    lemma_auto_spec_u64_to_from_le_bytes();
    lemma_global_layout(a);
    lemma_global_layout(b);
}

} // verus!
