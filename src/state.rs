use vstd::prelude::*;
use crate::errors::ForgeError;
use crate::identifier::{Handle, Pubkey};

verus! {

/// The persistent per-user record: who owns it and how many assets that
/// owner has created.
#[derive(Debug, Clone, Copy)]
pub struct UserRecord {
    pub authority: Pubkey,
    pub token_count: u64,
}

impl UserRecord {
    /// A fresh record for `authority`, with no assets counted yet.
    pub fn new(authority: Pubkey) -> (r: UserRecord)
        ensures
            r.authority == authority,
            r.token_count == 0,
    {
        UserRecord { authority, token_count: 0 }
    }

    /// Counts one more created asset; fails, leaving the record as it was,
    /// when the counter is already at its largest value.
    pub fn increment(&mut self) -> (r: Result<(), ForgeError>)
        ensures
            old(self).token_count == u64::MAX ==> r == Err::<(), ForgeError>(ForgeError::Overflow)
                && *final(self) == *old(self),
            old(self).token_count < u64::MAX ==> r is Ok && final(self).authority
                == old(self).authority && final(self).token_count == old(self).token_count + 1,
    {
        match self.token_count.checked_add(1) {
            Some(n) => {
                self.token_count = n;
                Ok(())
            },
            None => Err(ForgeError::Overflow),
        }
    }
}

/// Opens the user record of the signing caller.
pub fn initialize_user(authority: &Handle) -> (r: Result<UserRecord, ForgeError>)
    ensures
        !authority.is_signer ==> r is Err && r->Err_0 == ForgeError::Unauthorized,
        authority.is_signer ==> r is Ok && r->Ok_0.authority == authority.key && r->Ok_0.token_count
            == 0,
{
    if !authority.is_signer {
        return Err(ForgeError::Unauthorized);
    }
    Ok(UserRecord::new(authority.key))
}

/// A mint account as the token service records it: its precision and who
/// may issue new units (nobody, once revoked).
#[derive(Debug, Clone, Copy)]
pub struct MintAccount {
    pub handle: Handle,
    pub decimals: u8,
    pub mint_authority: Option<Pubkey>,
}

/// A token holding account as the token service records it.
#[derive(Debug, Clone, Copy)]
pub struct TokenAccount {
    pub handle: Handle,
    pub mint: Pubkey,
    pub owner: Pubkey,
    /// The account the owner approved to debit on its behalf, if any.
    pub delegate: Option<Pubkey>,
    /// How many units that delegate may still debit.
    pub delegated_amount: u64,
}

/// `who` may debit `amount` units from `account`: as its owner, or as its
/// approved delegate within the approved amount.
pub open spec fn may_debit(account: TokenAccount, who: Pubkey, amount: u64) -> bool {
    account.owner == who || (account.delegate == Some(who) && account.delegated_amount >= amount)
}

} // verus!
