//! The admin's pause switch for challenge creation, with an idempotence
//! guard: setting the flag to the value it already has is an error, not
//! a silent success.

use vstd::prelude::*;
use vstd::slice::slice_index_get;
use crate::accounts::{AccountView, DerivedPda, pubkey_eq};
use crate::codec::read_u8;
use crate::custom_errors::{ProgramError, ScreenWarErrors};
use crate::state::Global;

verus! {

/// The pause-toggle instruction: resolved accounts plus decoded payload.
pub struct ToggleChallengeCreation {
    pub accounts: ToggleChallengeCreationAccounts,
    pub instruction_data: ToggleChallengeCreationInstructionData,
}

/// The resolved accounts of a toggle: the signing admin and the global
/// record.
pub struct ToggleChallengeCreationAccounts {
    pub admin: AccountView,
    pub global: AccountView,
}

/// The toggle payload: the requested pause state.
#[derive(Clone, Copy, Debug, PartialEq, Eq)]
pub struct ToggleChallengeCreationInstructionData {
    pub pause: bool,
}

/// The decoded toggle payload: one byte, 0 for unpause and 1 for pause;
/// anything else is malformed.
pub open spec fn spec_parse_toggle_challenge_creation(payload: Seq<u8>) -> Result<
    ToggleChallengeCreationInstructionData,
    ProgramError,
> {
    if payload.len() != 1 {
        Err(ProgramError::InvalidInstructionData)
    } else if payload[0] == 0 {
        Ok(ToggleChallengeCreationInstructionData { pause: false })
    } else if payload[0] == 1 {
        Ok(ToggleChallengeCreationInstructionData { pause: true })
    } else {
        Err(ProgramError::InvalidInstructionData)
    }
}

impl ToggleChallengeCreationAccounts {
    /// Resolves and authorizes the accounts: exactly two are expected
    /// (admin, global); the admin must have signed, and the global
    /// record must stand at its derived address. Whether the signer
    /// really is the admin is checked against the record itself during
    /// execution.
    pub fn try_from(accounts: &[AccountView], global_derived: &DerivedPda) -> (r: Result<
        ToggleChallengeCreationAccounts,
        ProgramError,
    >)
        ensures
            ({
                let n_ok = accounts@.len() == 2;
                let signer_ok = n_ok && accounts@[0].is_signer;
                let global_ok = n_ok && accounts@[1].key@ == global_derived.key@;
                &&& (r is Ok <==> n_ok && signer_ok && global_ok)
                &&& (!n_ok ==> r == Err::<ToggleChallengeCreationAccounts, ProgramError>(
                    ProgramError::NotEnoughAccountKeys,
                ))
                &&& (n_ok && !signer_ok ==> r == Err::<ToggleChallengeCreationAccounts, ProgramError>(
                    ProgramError::Custom(ScreenWarErrors::NotSigner),
                ))
                &&& (signer_ok && !global_ok ==> r == Err::<
                    ToggleChallengeCreationAccounts,
                    ProgramError,
                >(ProgramError::InvalidSeeds))
                &&& (r is Ok ==> r->Ok_0 == (ToggleChallengeCreationAccounts {
                    admin: accounts@[0],
                    global: accounts@[1],
                }))
            }),
    {
        if accounts.len() != 2 {
            return Err(ProgramError::NotEnoughAccountKeys);
        }
        let admin = *slice_index_get(accounts, 0);
        let global = *slice_index_get(accounts, 1);

        if !admin.is_signer {
            return Err(ProgramError::Custom(ScreenWarErrors::NotSigner));
        }
        if !pubkey_eq(&global.key, &global_derived.key) {
            return Err(ProgramError::InvalidSeeds);
        }
        Ok(ToggleChallengeCreationAccounts { admin, global })
    }
}

impl ToggleChallengeCreationInstructionData {
    /// Decodes the one-byte toggle payload.
    pub fn try_from(data: &[u8]) -> (r: Result<ToggleChallengeCreationInstructionData, ProgramError>)
        ensures
            r == spec_parse_toggle_challenge_creation(data@),
    {
        if data.len() != 1 {
            return Err(ProgramError::InvalidInstructionData);
        }
        let pause = match read_u8(data, 0) {
            0 => false,
            1 => true,
            _ => {
                return Err(ProgramError::InvalidInstructionData);
            },
        };
        Ok(ToggleChallengeCreationInstructionData { pause })
    }
}

impl ToggleChallengeCreation {
    /// Resolves accounts and decodes the payload.
    pub fn try_from(accounts: &[AccountView], data: &[u8], global_derived: &DerivedPda) -> (r:
        Result<ToggleChallengeCreation, ProgramError>)
        ensures
            r is Ok ==> ({
                let s = r->Ok_0;
                &&& accounts@.len() == 2
                &&& s.accounts.admin == accounts@[0]
                &&& s.accounts.global == accounts@[1]
                &&& s.accounts.admin.is_signer
                &&& s.accounts.global.key@ == global_derived.key@
                &&& Ok::<ToggleChallengeCreationInstructionData, ProgramError>(s.instruction_data)
                    == spec_parse_toggle_challenge_creation(data@)
            }),
            r is Err ==> (accounts@.len() != 2 || !accounts@[0].is_signer || accounts@[1].key@
                != global_derived.key@ || spec_parse_toggle_challenge_creation(data@) is Err),
    {
        let resolved = match ToggleChallengeCreationAccounts::try_from(accounts, global_derived) {
            Ok(a) => a,
            Err(e) => {
                return Err(e);
            },
        };
        let instruction_data = match ToggleChallengeCreationInstructionData::try_from(data) {
            Ok(d) => d,
            Err(e) => {
                return Err(e);
            },
        };
        Ok(ToggleChallengeCreation { accounts: resolved, instruction_data })
    }

    /// The toggle transition: succeeds exactly when the caller is the
    /// recorded admin and the requested state differs from the current
    /// one; on any error the Global record is untouched.
    pub fn process(&self, global: &mut Global) -> (r: Result<(), ProgramError>)
        ensures
            ({
                let g = *old(global);
                let is_admin = self.accounts.admin.key@ == g.admin@;
                let changes = g.challenge_creation_paused != self.instruction_data.pause;
                &&& (r is Ok <==> is_admin && changes)
                &&& (!is_admin ==> r is Err && r->Err_0 == ProgramError::Custom(
                    ScreenWarErrors::NotAdmin,
                ))
                &&& (is_admin && !changes ==> r is Err && r->Err_0 == ProgramError::Custom(
                    ScreenWarErrors::ChallengeStateAlreadySet,
                ))
                &&& (r is Err ==> *final(global) == g)
                &&& (r is Ok ==> *final(global) == (Global {
                    challenge_creation_paused: self.instruction_data.pause,
                    ..g
                }))
            }),
    {
        match Self::validate_admin(global, &self.accounts.admin) {
            Ok(()) => {},
            Err(e) => {
                return Err(e);
            },
        }

        if global.challenge_creation_paused == self.instruction_data.pause {
            return Err(ProgramError::Custom(ScreenWarErrors::ChallengeStateAlreadySet));
        }

        global.challenge_creation_paused = self.instruction_data.pause;

        Ok(())
    }

    /// Rejects a caller other than the recorded admin.
    pub fn validate_admin(global: &Global, caller: &AccountView) -> (r: Result<(), ProgramError>)
        ensures
            r is Ok <==> global.admin@ == caller.key@,
            r is Err ==> r->Err_0 == ProgramError::Custom(ScreenWarErrors::NotAdmin),
    {
        if !pubkey_eq(&global.admin, &caller.key) {
            return Err(ProgramError::Custom(ScreenWarErrors::NotAdmin));
        }
        Ok(())
    }
}

} // verus!
