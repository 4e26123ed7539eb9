//! Treasury administration: the admin withdraws accrued protocol profit
//! from the treasury, never more than has been accrued.

use vstd::prelude::*;
use vstd::bytes::spec_u64_from_le_bytes;
use vstd::slice::slice_index_get;
use crate::accounts::{AccountView, DerivedPda, pubkey_eq};
use crate::codec::read_u64_le;
use crate::custom_errors::{ProgramError, ScreenWarErrors};
use crate::state::Global;

verus! {

/// The profit-taking instruction: resolved accounts plus decoded payload.
pub struct TakeProfit {
    pub accounts: TakeProfitAccounts,
    pub instruction_data: TakeProfitInstructionData,
}

/// The resolved accounts of a profit claim: the signing admin and the
/// global treasury record.
pub struct TakeProfitAccounts {
    pub admin: AccountView,
    pub global: AccountView,
    pub global_bump: u8,
}

/// The profit-taking payload: the amount to withdraw.
#[derive(Clone, Copy, Debug, PartialEq, Eq)]
pub struct TakeProfitInstructionData {
    pub amount: u64,
}

/// The decoded profit-taking payload: 8 bytes of amount, little-endian.
pub open spec fn spec_parse_take_profit(payload: Seq<u8>) -> Result<
    TakeProfitInstructionData,
    ProgramError,
> {
    if payload.len() != 8 {
        Err(ProgramError::InvalidInstructionData)
    } else {
        Ok(TakeProfitInstructionData { amount: spec_u64_from_le_bytes(payload) })
    }
}

impl TakeProfitAccounts {
    /// Resolves and authorizes the accounts: exactly three are expected
    /// (admin, treasury, system); the admin must have signed, and the
    /// treasury record must stand at its derived address. Whether the
    /// signer really is the admin is checked against the record itself
    /// during execution.
    pub fn try_from(accounts: &[AccountView], global_derived: &DerivedPda) -> (r: Result<
        TakeProfitAccounts,
        ProgramError,
    >)
        ensures
            ({
                let n_ok = accounts@.len() == 3;
                let signer_ok = n_ok && accounts@[0].is_signer;
                let global_ok = n_ok && accounts@[1].key@ == global_derived.key@;
                &&& (r is Ok <==> n_ok && signer_ok && global_ok)
                &&& (!n_ok ==> r == Err::<TakeProfitAccounts, ProgramError>(
                    ProgramError::NotEnoughAccountKeys,
                ))
                &&& (n_ok && !signer_ok ==> r == Err::<TakeProfitAccounts, ProgramError>(
                    ProgramError::Custom(ScreenWarErrors::NotSigner),
                ))
                &&& (signer_ok && !global_ok ==> r == Err::<TakeProfitAccounts, ProgramError>(
                    ProgramError::InvalidSeeds,
                ))
                &&& (r is Ok ==> r->Ok_0 == (TakeProfitAccounts {
                    admin: accounts@[0],
                    global: accounts@[1],
                    global_bump: global_derived.bump,
                }))
            }),
    {
        if accounts.len() != 3 {
            return Err(ProgramError::NotEnoughAccountKeys);
        }
        let admin = *slice_index_get(accounts, 0);
        let global = *slice_index_get(accounts, 1);

        if !admin.is_signer {
            return Err(ProgramError::Custom(ScreenWarErrors::NotSigner));
        }
        if !pubkey_eq(&global.key, &global_derived.key) {
            return Err(ProgramError::InvalidSeeds);
        }
        Ok(TakeProfitAccounts { admin, global, global_bump: global_derived.bump })
    }
}

impl TakeProfitInstructionData {
    /// Decodes the fixed-width profit-taking payload.
    pub fn try_from(data: &[u8]) -> (r: Result<TakeProfitInstructionData, ProgramError>)
        ensures
            r == spec_parse_take_profit(data@),
    {
        if data.len() != 8 {
            return Err(ProgramError::InvalidInstructionData);
        }
        let amount = read_u64_le(data, 0);
        proof {
            assert(data@.subrange(0, 8) =~= data@);
        }
        Ok(TakeProfitInstructionData { amount })
    }
}

impl TakeProfit {
    /// Resolves accounts and decodes the payload.
    pub fn try_from(accounts: &[AccountView], data: &[u8], global_derived: &DerivedPda) -> (r:
        Result<TakeProfit, ProgramError>)
        ensures
            r is Ok ==> ({
                let s = r->Ok_0;
                &&& accounts@.len() == 3
                &&& s.accounts.admin == accounts@[0]
                &&& s.accounts.global == accounts@[1]
                &&& s.accounts.admin.is_signer
                &&& s.accounts.global.key@ == global_derived.key@
                &&& Ok::<TakeProfitInstructionData, ProgramError>(s.instruction_data)
                    == spec_parse_take_profit(data@)
            }),
            r is Err ==> (accounts@.len() != 3 || !accounts@[0].is_signer || accounts@[1].key@
                != global_derived.key@ || data@.len() != 8),
    {
        let resolved = match TakeProfitAccounts::try_from(accounts, global_derived) {
            Ok(a) => a,
            Err(e) => {
                return Err(e);
            },
        };
        let instruction_data = match TakeProfitInstructionData::try_from(data) {
            Ok(d) => d,
            Err(e) => {
                return Err(e);
            },
        };
        Ok(TakeProfit { accounts: resolved, instruction_data })
    }

    /// The profit-taking transition: succeeds exactly when the caller is
    /// the recorded admin and asks for no more than the accrued profit.
    /// On success the accrued profit shrinks by the paid amount, which
    /// the host transfers from the treasury to the admin; on any error
    /// the Global record is untouched.
    pub fn process(&self, global: &mut Global) -> (r: Result<u64, ProgramError>)
        ensures
            ({
                let g = *old(global);
                let is_admin = self.accounts.admin.key@ == g.admin@;
                let solvent = self.instruction_data.amount <= g.treasury_profits;
                &&& (r is Ok <==> is_admin && solvent)
                &&& (!is_admin ==> r is Err && r->Err_0 == ProgramError::Custom(
                    ScreenWarErrors::NotAdmin,
                ))
                &&& (is_admin && !solvent ==> r is Err && r->Err_0 == ProgramError::Custom(
                    ScreenWarErrors::OverClaim,
                ))
                &&& (r is Err ==> *final(global) == g)
                &&& (r is Ok ==> r->Ok_0 == self.instruction_data.amount)
                &&& (r is Ok ==> *final(global) == (Global {
                    treasury_profits: (g.treasury_profits - self.instruction_data.amount) as u64,
                    ..g
                }))
            }),
    {
        match Self::validate_admin(global, &self.accounts.admin) {
            Ok(()) => {},
            Err(e) => {
                return Err(e);
            },
        }
        match Self::validate_solvency(global.treasury_profits, self.instruction_data.amount) {
            Ok(()) => {},
            Err(e) => {
                return Err(e);
            },
        }
        match Self::update_treasury_profits(global, self.instruction_data.amount) {
            Ok(()) => {},
            Err(e) => {
                return Err(e);
            },
        }
        Ok(self.instruction_data.amount)
    }

    /// Rejects a claim that exceeds the accrued protocol profit.
    pub fn validate_solvency(treasury_profits: u64, amount: u64) -> (r: Result<(), ProgramError>)
        ensures
            r is Ok <==> amount <= treasury_profits,
            r is Err ==> r->Err_0 == ProgramError::Custom(ScreenWarErrors::OverClaim),
    {
        if amount > treasury_profits {
            return Err(ProgramError::Custom(ScreenWarErrors::OverClaim));
        }
        Ok(())
    }

    /// Rejects a caller other than the recorded admin.
    pub fn validate_admin(global: &Global, caller: &AccountView) -> (r: Result<(), ProgramError>)
        ensures
            r is Ok <==> global.admin@ == caller.key@,
            r is Err ==> r->Err_0 == ProgramError::Custom(ScreenWarErrors::NotAdmin),
    {
        if !pubkey_eq(&global.admin, &caller.key) {
            return Err(ProgramError::Custom(ScreenWarErrors::NotAdmin));
        }
        Ok(())
    }

    /// Paid-out profit leaves the treasury's running total.
    pub fn update_treasury_profits(global: &mut Global, amount: u64) -> (r: Result<(), ProgramError>)
        ensures
            r is Ok <==> amount <= old(global).treasury_profits,
            r is Ok ==> *final(global) == (Global {
                treasury_profits: (old(global).treasury_profits - amount) as u64,
                ..*old(global)
            }),
            r is Err ==> r->Err_0 == ProgramError::Custom(ScreenWarErrors::IntegerUnderflow)
                && *final(global) == *old(global),
    {
        let new_profits = match global.treasury_profits.checked_sub(amount) {
            Some(v) => v,
            None => {
                return Err(ProgramError::Custom(ScreenWarErrors::IntegerUnderflow));
            },
        };
        global.treasury_profits = new_profits;
        Ok(())
    }
}

} // verus!
