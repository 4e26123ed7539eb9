//! Deployment initialization: creates the singleton Global record, with
//! the initializing admin as both administrator and treasury authority.

use vstd::prelude::*;
use vstd::slice::slice_index_get;
use crate::accounts::{AccountView, DerivedPda, pubkey_eq};
use crate::custom_errors::{ProgramError, ScreenWarErrors};
use crate::state::Global;

verus! {

/// The initialize instruction: resolved accounts only, it has no payload.
pub struct Initialize {
    pub accounts: InitializeAccounts,
}

/// The resolved accounts of an initialization: the signing admin and the
/// global record at its derived address.
pub struct InitializeAccounts {
    pub admin: AccountView,
    pub global_pda: AccountView,
    pub bump: u8,
}

impl InitializeAccounts {
    /// Resolves and authorizes the accounts: exactly four are expected
    /// (admin, global, rent, system); the admin must have signed, and
    /// the global record must stand at its derived address.
    pub fn try_from(accounts: &[AccountView], global_derived: &DerivedPda) -> (r: Result<
        InitializeAccounts,
        ProgramError,
    >)
        ensures
            ({
                let n_ok = accounts@.len() == 4;
                let signer_ok = n_ok && accounts@[0].is_signer;
                let global_ok = n_ok && accounts@[1].key@ == global_derived.key@;
                &&& (r is Ok <==> n_ok && signer_ok && global_ok)
                &&& (!n_ok ==> r == Err::<InitializeAccounts, ProgramError>(
                    ProgramError::NotEnoughAccountKeys,
                ))
                &&& (n_ok && !signer_ok ==> r == Err::<InitializeAccounts, ProgramError>(
                    ProgramError::Custom(ScreenWarErrors::NotSigner),
                ))
                &&& (signer_ok && !global_ok ==> r == Err::<InitializeAccounts, ProgramError>(
                    ProgramError::InvalidSeeds,
                ))
                &&& (r is Ok ==> r->Ok_0 == (InitializeAccounts {
                    admin: accounts@[0],
                    global_pda: accounts@[1],
                    bump: global_derived.bump,
                }))
            }),
    {
        if accounts.len() != 4 {
            return Err(ProgramError::NotEnoughAccountKeys);
        }
        let admin = *slice_index_get(accounts, 0);
        let global_pda = *slice_index_get(accounts, 1);

        if !admin.is_signer {
            return Err(ProgramError::Custom(ScreenWarErrors::NotSigner));
        }
        if !pubkey_eq(&global_pda.key, &global_derived.key) {
            return Err(ProgramError::InvalidSeeds);
        }
        Ok(InitializeAccounts { admin, global_pda, bump: global_derived.bump })
    }
}

impl Initialize {
    /// Resolves the accounts of the instruction.
    pub fn try_from(accounts: &[AccountView], global_derived: &DerivedPda) -> (r: Result<
        Initialize,
        ProgramError,
    >)
        ensures
            r is Ok ==> ({
                let s = r->Ok_0;
                &&& accounts@.len() == 4
                &&& s.accounts.admin == accounts@[0]
                &&& s.accounts.global_pda == accounts@[1]
                &&& s.accounts.admin.is_signer
                &&& s.accounts.global_pda.key@ == global_derived.key@
                &&& s.accounts.bump == global_derived.bump
            }),
            r is Err ==> (accounts@.len() != 4 || !accounts@[0].is_signer || accounts@[1].key@
                != global_derived.key@),
    {
        let resolved = match InitializeAccounts::try_from(accounts, global_derived) {
            Ok(a) => a,
            Err(e) => {
                return Err(e);
            },
        };
        Ok(Initialize { accounts: resolved })
    }

    /// Builds the initial Global record the host persists: the admin is
    /// the initializer, the treasury is the global record itself, the
    /// counter starts at one, creation is unpaused and no profit is
    /// accrued.
    pub fn process(&self) -> (g: Global)
        ensures
            g.admin@ == self.accounts.admin.key@,
            g.treasury@ == self.accounts.global_pda.key@,
            g.treasury_profits == 0,
            g.challenge_ids == 1,
            !g.challenge_creation_paused,
            g.bump == self.accounts.bump,
    {
        Global {
            admin: self.accounts.admin.key,
            treasury: self.accounts.global_pda.key,
            treasury_profits: 0,
            challenge_ids: 1,
            challenge_creation_paused: false,
            bump: self.accounts.bump,
        }
    }
}

} // verus!
