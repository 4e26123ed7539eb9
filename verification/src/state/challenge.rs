//! The per-challenge record: window, economics accumulator and
//! winner/creator settlement state.

use vstd::prelude::*;
use vstd::bytes::{spec_u32_from_le_bytes, spec_u32_to_le_bytes, spec_u64_from_le_bytes,
    spec_u64_to_le_bytes, lemma_auto_spec_u32_to_from_le_bytes, lemma_auto_spec_u64_to_from_le_bytes};
use crate::accounts::Pubkey;
use crate::codec::{is_bool_byte, push_bool, push_i64_le, push_pubkey, push_u32_le, push_u64_le,
    push_u8, read_i64_le, read_pubkey, read_u32_le, read_u64_le, read_u8, spec_bool_to_byte,
    spec_i64_from_le_bytes, spec_i64_to_le_bytes};
use crate::constants::THREE_WEEKS;
use crate::custom_errors::ProgramError;

verus! {

/// Byte length of a packed Challenge record:
/// creator 32, challenge_id 4, daily_timer 8, start 8, end 8,
/// total_slashed 8, winner 32, winner_streak 1, winner_has_claimed 1,
/// creator_has_claimed 1, total_participants 4, bump 1.
pub const CHALLENGE_RECORD_LEN: usize = 108;

/// One challenge: a fixed 21-day window, the accumulated slashed pool,
/// and the winner/creator claim state.
///
/// `total_slashed` only grows until reward distribution; the winner and
/// creator identities are nulled to the empty identity when their reward
/// is claimed, which is what makes a second claim unreachable.
#[derive(Clone, Copy, Debug, PartialEq, Eq)]
pub struct Challenge {
    pub creator: Pubkey,
    pub challenge_id: u32,
    pub daily_timer: i64,
    pub start: i64,
    pub end: i64,
    pub total_slashed: u64,
    pub winner: Pubkey,
    pub winner_streak: u8,
    pub winner_has_claimed: bool,
    pub creator_has_claimed: bool,
    pub total_participants: u32,
    pub bump: u8,
}

impl Challenge {
    /// The fixed-window invariant: the end of every challenge stands
    /// exactly 21 days after its start. Creation establishes it and no
    /// handler moves either bound afterwards.
    pub open spec fn wf(self) -> bool {
        self.end == self.start + THREE_WEEKS
    }

    /// The exact packed image of this record.
    pub open spec fn spec_pack(self) -> Seq<u8> {
        self.creator@ + spec_u32_to_le_bytes(self.challenge_id)
            + spec_i64_to_le_bytes(self.daily_timer) + spec_i64_to_le_bytes(self.start)
            + spec_i64_to_le_bytes(self.end) + spec_u64_to_le_bytes(self.total_slashed)
            + self.winner@ + seq![self.winner_streak]
            + seq![spec_bool_to_byte(self.winner_has_claimed)]
            + seq![spec_bool_to_byte(self.creator_has_claimed)]
            + spec_u32_to_le_bytes(self.total_participants) + seq![self.bump]
    }

    /// Serializes the record into its byte-exact persisted layout.
    pub fn pack(&self) -> (out: Vec<u8>)
        ensures
            out@ == self.spec_pack(),
            out@.len() == CHALLENGE_RECORD_LEN,
    {
        let mut out: Vec<u8> = Vec::new();
        push_pubkey(&mut out, &self.creator);
        push_u32_le(&mut out, self.challenge_id);
        push_i64_le(&mut out, self.daily_timer);
        push_i64_le(&mut out, self.start);
        push_i64_le(&mut out, self.end);
        push_u64_le(&mut out, self.total_slashed);
        push_pubkey(&mut out, &self.winner);
        push_u8(&mut out, self.winner_streak);
        push_bool(&mut out, self.winner_has_claimed);
        push_bool(&mut out, self.creator_has_claimed);
        push_u32_le(&mut out, self.total_participants);
        push_u8(&mut out, self.bump);
        proof {
            lemma_auto_spec_u32_to_from_le_bytes();
            lemma_auto_spec_u64_to_from_le_bytes();
            assert(out@ =~= self.spec_pack());
        }
        out
    }

    /// Deserializes a record, validating the buffer length before
    /// interpreting any field; a loaded record packs back to the very
    /// same bytes.
    pub fn load(bytes: &[u8]) -> (r: Result<Challenge, ProgramError>)
        ensures
            r is Ok <==> bytes@.len() == CHALLENGE_RECORD_LEN && is_bool_byte(bytes@[101])
                && is_bool_byte(bytes@[102]),
            r is Ok ==> r->Ok_0.spec_pack() == bytes@,
            r is Err ==> r->Err_0 == ProgramError::InvalidAccountData,
    {
        if bytes.len() != CHALLENGE_RECORD_LEN {
            return Err(ProgramError::InvalidAccountData);
        }
        let creator = read_pubkey(bytes, 0);
        let challenge_id = read_u32_le(bytes, 32);
        let daily_timer = read_i64_le(bytes, 36);
        let start = read_i64_le(bytes, 44);
        let end = read_i64_le(bytes, 52);
        let total_slashed = read_u64_le(bytes, 60);
        let winner = read_pubkey(bytes, 68);
        let winner_streak = read_u8(bytes, 100);
        let winner_claimed_byte = read_u8(bytes, 101);
        let creator_claimed_byte = read_u8(bytes, 102);
        if winner_claimed_byte > 1 || creator_claimed_byte > 1 {
            return Err(ProgramError::InvalidAccountData);
        }
        let total_participants = read_u32_le(bytes, 103);
        let bump = read_u8(bytes, 107);
        let c = Challenge {
            creator,
            challenge_id,
            daily_timer,
            start,
            end,
            total_slashed,
            winner,
            winner_streak,
            winner_has_claimed: winner_claimed_byte == 1,
            creator_has_claimed: creator_claimed_byte == 1,
            total_participants,
            bump,
        };
        proof {
            lemma_auto_spec_u32_to_from_le_bytes();
            lemma_auto_spec_u64_to_from_le_bytes();
            crate::codec::lemma_i64_bits_roundtrip(c.daily_timer);
            crate::codec::lemma_i64_bits_roundtrip(c.start);
            crate::codec::lemma_i64_bits_roundtrip(c.end);
            assert(c.spec_pack() =~= bytes@);
        }
        Ok(c)
    }
}

/// The packed image determines the record: two records with the same
/// bytes agree on every field (identities compared by content).
pub proof fn lemma_challenge_pack_injective(a: Challenge, b: Challenge)
    requires
        a.spec_pack() == b.spec_pack(),
    ensures
        a.creator@ == b.creator@,
        a.challenge_id == b.challenge_id,
        a.daily_timer == b.daily_timer,
        a.start == b.start,
        a.end == b.end,
        a.total_slashed == b.total_slashed,
        a.winner@ == b.winner@,
        a.winner_streak == b.winner_streak,
        a.winner_has_claimed == b.winner_has_claimed,
        a.creator_has_claimed == b.creator_has_claimed,
        a.total_participants == b.total_participants,
        a.bump == b.bump,
{
    lemma_auto_spec_u32_to_from_le_bytes();
    lemma_auto_spec_u64_to_from_le_bytes();
    crate::codec::lemma_i64_bits_roundtrip(a.daily_timer);
    crate::codec::lemma_i64_bits_roundtrip(a.start);
    crate::codec::lemma_i64_bits_roundtrip(a.end);
    crate::codec::lemma_i64_bits_roundtrip(b.daily_timer);
    crate::codec::lemma_i64_bits_roundtrip(b.start);
    crate::codec::lemma_i64_bits_roundtrip(b.end);
    lemma_challenge_layout(a);
    lemma_challenge_layout(b);
}

/// The byte-exact layout of a packed Challenge record: each field's bytes
/// stand at their fixed offset.
pub proof fn lemma_challenge_layout(c: Challenge)
    ensures
        c.spec_pack().len() == CHALLENGE_RECORD_LEN,
        c.spec_pack().subrange(0, 32) == c.creator@,
        c.spec_pack().subrange(32, 36) == spec_u32_to_le_bytes(c.challenge_id),
        c.spec_pack().subrange(36, 44) == spec_i64_to_le_bytes(c.daily_timer),
        c.spec_pack().subrange(44, 52) == spec_i64_to_le_bytes(c.start),
        c.spec_pack().subrange(52, 60) == spec_i64_to_le_bytes(c.end),
        c.spec_pack().subrange(60, 68) == spec_u64_to_le_bytes(c.total_slashed),
        c.spec_pack().subrange(68, 100) == c.winner@,
        c.spec_pack()[100] == c.winner_streak,
        c.spec_pack()[101] == spec_bool_to_byte(c.winner_has_claimed),
        c.spec_pack()[102] == spec_bool_to_byte(c.creator_has_claimed),
        c.spec_pack().subrange(103, 107) == spec_u32_to_le_bytes(c.total_participants),
        c.spec_pack()[107] == c.bump,
{
    lemma_auto_spec_u32_to_from_le_bytes();
    lemma_auto_spec_u64_to_from_le_bytes();
    assert(c.spec_pack().subrange(0, 32) =~= c.creator@);
    assert(c.spec_pack().subrange(32, 36) =~= spec_u32_to_le_bytes(c.challenge_id));
    assert(c.spec_pack().subrange(36, 44) =~= spec_i64_to_le_bytes(c.daily_timer));
    assert(c.spec_pack().subrange(44, 52) =~= spec_i64_to_le_bytes(c.start));
    assert(c.spec_pack().subrange(52, 60) =~= spec_i64_to_le_bytes(c.end));
    assert(c.spec_pack().subrange(60, 68) =~= spec_u64_to_le_bytes(c.total_slashed));
    assert(c.spec_pack().subrange(68, 100) =~= c.winner@);
    assert(c.spec_pack().subrange(103, 107) =~= spec_u32_to_le_bytes(c.total_participants));
}

} // verus!
