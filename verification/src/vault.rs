//! Vault ledger: the three value-holding balances of one market.
//!
//! The host runtime owns the real accounts; the settlement core tracks their
//! balances and moves value between them with checked arithmetic. Value paid
//! to a participant leaves these three balances; value staked enters them.

use vstd::prelude::*;
use crate::errors::ErrorCode;

verus! {

/// Balances of the three vault accounts scoped to one market.
#[derive(Clone, Copy, PartialEq, Eq, Structural, Debug)]
pub struct Vaults {
    /// Escrow for stakes placed on Yes.
    pub vault_yes: u64,
    /// Escrow for stakes placed on No.
    pub vault_no: u64,
    /// Accumulated protocol fees.
    pub fee_vault: u64,
}

impl Vaults {
    /// Combined balance held for this market; conservation is stated over it.
    pub open spec fn sum(self) -> int {
        self.vault_yes + self.vault_no + self.fee_vault
    }

    /// Fresh vaults, as the host creates them at market initialization.
    pub fn new() -> (v: Vaults)
        ensures
            v == (Vaults { vault_yes: 0, vault_no: 0, fee_vault: 0 }),
    {
        Vaults { vault_yes: 0, vault_no: 0, fee_vault: 0 }
    }
}

/// Moves exactly `amount` from one balance to another, or fails without
/// touching either: the source must cover the amount and the destination must
/// not wrap.
pub fn transfer_exact_from_pda(amount: u64, from: &mut u64, to: &mut u64) -> (r: Result<
    (),
    ErrorCode,
>)
    ensures
        r is Ok <==> *old(from) >= amount && *old(to) + amount <= u64::MAX,
        r is Ok ==> *final(from) == *old(from) - amount && *final(to) == *old(to) + amount,
        r is Err ==> *final(from) == *old(from) && *final(to) == *old(to) && r == Err::<
            (),
            ErrorCode,
        >(ErrorCode::MathOverflow),
{
    if amount <= *from {
        if amount <= u64::MAX - *to {
            *from = *from - amount;
            *to = *to + amount;
            Ok(())
        } else {
            Err(ErrorCode::MathOverflow)
        }
    } else {
        Err(ErrorCode::MathOverflow)
    }
}

/// Pays a refund from whichever stake vault currently covers it: the Yes
/// vault if its balance suffices, otherwise the No vault. Conservation keeps
/// the pair funded as a whole, so a refund is not guaranteed to come from the
/// vault its stake went into.
pub fn transfer_from_any_vault(
    amount: u64,
    vault_yes: &mut u64,
    vault_no: &mut u64,
    to: &mut u64,
) -> (r: Result<(), ErrorCode>)
    ensures
        r is Ok <==> *old(to) + amount <= u64::MAX && (*old(vault_yes) >= amount || *old(vault_no)
            >= amount),
        r is Ok && *old(vault_yes) >= amount ==> *final(vault_yes) == *old(vault_yes) - amount
            && *final(vault_no) == *old(vault_no),
        r is Ok && *old(vault_yes) < amount ==> *final(vault_no) == *old(vault_no) - amount
            && *final(vault_yes) == *old(vault_yes),
        r is Ok ==> *final(to) == *old(to) + amount,
        r is Err ==> *final(vault_yes) == *old(vault_yes) && *final(vault_no) == *old(vault_no)
            && *final(to) == *old(to) && r == Err::<(), ErrorCode>(ErrorCode::MathOverflow),
{
    if *vault_yes >= amount {
        transfer_exact_from_pda(amount, vault_yes, to)
    } else {
        transfer_exact_from_pda(amount, vault_no, to)
    }
}

} // verus!
