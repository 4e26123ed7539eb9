//! Identities, account views and derived addresses.
//!
//! The hosting execution environment resolves accounts, proves the callers'
//! signatures, and derives deterministic record addresses; the handlers in
//! this crate receive the results as plain values and recompute every
//! authorization decision from them.

use vstd::prelude::*;

verus! {

/// A 32-byte identity: a caller's key or a record's address.
pub type Pubkey = [u8; 32];

/// True of the all-zero identity, the "empty" value meaning
/// "no winner yet" or "already claimed and nulled".
pub open spec fn is_empty_pubkey(p: Pubkey) -> bool {
    forall|i: int| 0 <= i < 32 ==> p[i] == 0
}

/// The all-zero identity.
pub fn empty_pubkey() -> (r: Pubkey)
    ensures
        is_empty_pubkey(r),
{
    [0u8; 32]
}

/// Byte-wise equality of two identities.
pub fn pubkey_eq(a: &Pubkey, b: &Pubkey) -> (r: bool)
    ensures
        r <==> a@ == b@,
{
    let mut i: usize = 0;
    while i < 32
        invariant
            0 <= i <= 32,
            forall|j: int| 0 <= j < i ==> a[j] == b[j],
        decreases 32 - i,
    {
        if a[i] != b[i] {
            assert(a@[i as int] != b@[i as int]);
            return false;
        }
        i = i + 1;
    }
    proof {
        assert(a@ =~= b@);
    }
    true
}

/// True exactly when `p` is the all-zero identity.
pub fn pubkey_is_empty(p: &Pubkey) -> (r: bool)
    ensures
        r <==> is_empty_pubkey(*p),
{
    let mut i: usize = 0;
    while i < 32
        invariant
            0 <= i <= 32,
            forall|j: int| 0 <= j < i ==> p[j] == 0,
        decreases 32 - i,
    {
        if p[i] != 0 {
            return false;
        }
        i = i + 1;
    }
    true
}

/// What the host hands over about one account of the instruction:
/// its address and whether its owner signed the transaction.
#[derive(Clone, Copy, Debug)]
pub struct AccountView {
    pub key: Pubkey,
    pub is_signer: bool,
}

/// A deterministic derived record address with its nonce, computed by the
/// host's derivation capability from a namespace tag and identifying fields.
/// Handlers compare it against the supplied account keys; they never trust
/// a record address that does not match.
#[derive(Clone, Copy, Debug)]
pub struct DerivedPda {
    pub key: Pubkey,
    pub bump: u8,
}

} // verus!
