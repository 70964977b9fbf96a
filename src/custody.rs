use vstd::prelude::*;
use crate::calls::{single_call_plan, Plan, ServiceCall};
use crate::errors::ForgeError;
use crate::events::Event;
use crate::identifier::{Handle, Pubkey};

verus! {

/// Two consecutive handles of a batch: the mint, then its associated record.
#[derive(Debug, Clone, Copy)]
pub struct HandlePair {
    pub primary: Handle,
    pub secondary: Handle,
}

/// A flat handle list pairs with `count` amounts when it holds exactly two
/// handles per amount.
pub open spec fn pairs_with(handles: Seq<Handle>, count: nat) -> bool {
    handles.len() == 2 * count
}

/// Group `i` of a flat handle list: the handles at `2i` and `2i + 1`.
pub open spec fn group_of(handles: Seq<Handle>, i: int) -> HandlePair {
    HandlePair { primary: handles[2 * i], secondary: handles[2 * i + 1] }
}

/// The mint of each group, in input order.
pub open spec fn batch_mints(handles: Seq<Handle>, count: nat) -> Seq<Pubkey> {
    Seq::new(count, |i: int| handles[2 * i].key)
}

/// Splits a flat handle list into `count` groups of two by position; fails,
/// before reading any handle, when the list does not hold exactly two
/// handles per group.
pub fn resolve_batch(handles: &Vec<Handle>, count: usize) -> (r: Result<Vec<HandlePair>, ForgeError>)
    ensures
        !pairs_with(handles@, count as nat) ==> r == Err::<Vec<HandlePair>, ForgeError>(
            ForgeError::MalformedBatch,
        ),
        pairs_with(handles@, count as nat) ==> r is Ok && r->Ok_0@.len() == count && forall|i: int|
            0 <= i < count ==> #[trigger] r->Ok_0@[i] == group_of(handles@, i),
{
    if handles.len() % 2 != 0 || handles.len() / 2 != count {
        return Err(ForgeError::MalformedBatch);
    }
    let n: usize = handles.len();
    let mut groups: Vec<HandlePair> = Vec::new();
    let mut i: usize = 0;
    while i < count
        invariant
            i <= count,
            handles@.len() == 2 * count,
            n == handles@.len(),
            groups@.len() == i,
            forall|j: int| 0 <= j < i ==> #[trigger] groups@[j] == group_of(handles@, j),
        decreases count - i,
    {
        groups.push(HandlePair { primary: handles[2 * i], secondary: handles[2 * i + 1] });
        i = i + 1;
    }
    Ok(groups)
}

/// The handles of a batch burn; the per-mint handles come as a flat list.
#[derive(Debug, Clone, Copy)]
pub struct ProxyBurnBatch {
    pub burner: Handle,
    pub locker_program: Handle,
    pub token_program: Handle,
}

/// Plans a batch burn of `amounts`, one per group of `handles`: a single
/// call to the locking service that receives the whole flat list in its order, and an event
/// listing the mint of each group.
pub fn handle_proxy_burn_batch(ctx: &ProxyBurnBatch, handles: Vec<Handle>, amounts: Vec<u64>) -> (r:
    Result<Plan, ForgeError>)
    ensures
        !ctx.burner.is_signer ==> r == Err::<Plan, ForgeError>(ForgeError::Unauthorized),
        ctx.burner.is_signer && !pairs_with(handles@, amounts@.len()) ==> r == Err::<
            Plan,
            ForgeError,
        >(ForgeError::MalformedBatch),
        ctx.burner.is_signer && pairs_with(handles@, amounts@.len()) ==> {
            &&& r is Ok
            &&& r->Ok_0.calls@.len() == 1
            &&& r->Ok_0.calls@[0] matches ServiceCall::BurnBatch {
                program,
                burner,
                token_program,
                accounts,
                amounts: a,
            } && program == ctx.locker_program.key && burner == ctx.burner && token_program == ctx.token_program && accounts@ == handles@
                && a@ == amounts@
            &&& r->Ok_0.event matches Event::BatchBurned { burner, mints, amounts: a } && burner
                == ctx.burner.key && mints@ == batch_mints(handles@, amounts@.len()) && a@ == amounts@
        },
{
    if !ctx.burner.is_signer {
        return Err(ForgeError::Unauthorized);
    }
    let groups = match resolve_batch(&handles, amounts.len()) {
        Ok(g) => g,
        Err(e) => {
            return Err(e);
        },
    };
    let mut mints: Vec<Pubkey> = Vec::new();
    let mut i: usize = 0;
    while i < groups.len()
        invariant
            i <= groups@.len(),
            groups@.len() == amounts@.len(),
            handles@.len() == 2 * amounts@.len(),
            forall|j: int| 0 <= j < groups@.len() ==> #[trigger] groups@[j] == group_of(handles@, j),
            mints@ == batch_mints(handles@, i as nat),
        decreases groups@.len() - i,
    {
        mints.push(groups[i].primary.key);
        i = i + 1;
        assert(mints@ =~= batch_mints(handles@, i as nat));
    }
    let event = Event::BatchBurned { burner: ctx.burner.key, mints, amounts: amounts.clone() };
    let mut calls: Vec<ServiceCall> = Vec::new();
    calls.push(
        ServiceCall::BurnBatch {
            program: ctx.locker_program.key,
            burner: ctx.burner,
            token_program: ctx.token_program,
            accounts: handles,
            amounts,
        },
    );
    Ok(Plan { calls, event })
}

/// The handles of a time lock placed through the locking service.
#[derive(Debug, Clone, Copy)]
pub struct ProxyLockTokens {
    pub owner: Handle,
    pub token_account: Handle,
    pub token_mint: Handle,
    pub lock_record: Handle,
    pub vault: Handle,
    pub token_program: Handle,
    pub locker_program: Handle,
}

/// Plans locking `amount` units until `unlock_timestamp` under `lock_id`.
pub fn handle_proxy_lock_tokens(
    ctx: &ProxyLockTokens,
    amount: u64,
    unlock_timestamp: i64,
    lock_id: u64,
) -> (r: Result<Plan, ForgeError>)
    ensures
        !ctx.owner.is_signer ==> r == Err::<Plan, ForgeError>(ForgeError::Unauthorized),
        ctx.owner.is_signer ==> r is Ok && r->Ok_0.calls@ == seq![
            ServiceCall::LockTokens {
                program: ctx.locker_program.key,
                owner: ctx.owner,
                token_account: ctx.token_account,
                token_mint: ctx.token_mint,
                lock_record: ctx.lock_record,
                vault: ctx.vault,
                token_program: ctx.token_program,
                amount: amount,
                unlock_timestamp: unlock_timestamp,
                lock_id: lock_id,
            },
        ] && r->Ok_0.event == (Event::TokensLocked {
            mint: ctx.token_mint.key,
            owner: ctx.owner.key,
            amount: amount,
            unlock_timestamp: unlock_timestamp,
            lock_id: lock_id,
        }),
{
    if !ctx.owner.is_signer {
        return Err(ForgeError::Unauthorized);
    }
    let call = ServiceCall::LockTokens {
        program: ctx.locker_program.key,
        owner: ctx.owner,
        token_account: ctx.token_account,
        token_mint: ctx.token_mint,
        lock_record: ctx.lock_record,
        vault: ctx.vault,
        token_program: ctx.token_program,
        amount,
        unlock_timestamp,
        lock_id,
    };
    let event = Event::TokensLocked {
        mint: ctx.token_mint.key,
        owner: ctx.owner.key,
        amount,
        unlock_timestamp,
        lock_id,
    };
    Ok(single_call_plan(call, event))
}

/// The handles of a withdrawal from a lock.
#[derive(Debug, Clone, Copy)]
pub struct ProxyWithdrawTokens {
    pub owner: Handle,
    pub token_account: Handle,
    pub token_mint: Handle,
    pub lock_record: Handle,
    pub vault: Handle,
    pub token_program: Handle,
    pub locker_program: Handle,
}

/// Plans withdrawing `amount` units from the lock `lock_id`.
pub fn handle_proxy_withdraw_tokens(ctx: &ProxyWithdrawTokens, lock_id: u64, amount: u64) -> (r:
    Result<Plan, ForgeError>)
    ensures
        !ctx.owner.is_signer ==> r == Err::<Plan, ForgeError>(ForgeError::Unauthorized),
        ctx.owner.is_signer ==> r is Ok && r->Ok_0.calls@ == seq![
            ServiceCall::WithdrawTokens {
                program: ctx.locker_program.key,
                owner: ctx.owner,
                token_account: ctx.token_account,
                token_mint: ctx.token_mint,
                lock_record: ctx.lock_record,
                vault: ctx.vault,
                token_program: ctx.token_program,
                lock_id: lock_id,
                amount: amount,
            },
        ] && r->Ok_0.event == (Event::TokensWithdrawn {
            mint: ctx.token_mint.key,
            owner: ctx.owner.key,
            lock_id: lock_id,
            amount: amount,
        }),
{
    if !ctx.owner.is_signer {
        return Err(ForgeError::Unauthorized);
    }
    let call = ServiceCall::WithdrawTokens {
        program: ctx.locker_program.key,
        owner: ctx.owner,
        token_account: ctx.token_account,
        token_mint: ctx.token_mint,
        lock_record: ctx.lock_record,
        vault: ctx.vault,
        token_program: ctx.token_program,
        lock_id,
        amount,
    };
    let event = Event::TokensWithdrawn { mint: ctx.token_mint.key, owner: ctx.owner.key, lock_id, amount };
    Ok(single_call_plan(call, event))
}

/// The handles of a burn from the owner's own holding account.
#[derive(Debug, Clone, Copy)]
pub struct ProxyBurnFromWallet {
    pub owner: Handle,
    pub token_account: Handle,
    pub token_mint: Handle,
    pub token_program: Handle,
    pub locker_program: Handle,
}

/// Plans burning `amount` units held by the owner.
pub fn handle_proxy_burn_from_wallet(ctx: &ProxyBurnFromWallet, amount: u64) -> (r: Result<
    Plan,
    ForgeError,
>)
    ensures
        !ctx.owner.is_signer ==> r == Err::<Plan, ForgeError>(ForgeError::Unauthorized),
        ctx.owner.is_signer ==> r is Ok && r->Ok_0.calls@ == seq![
            ServiceCall::BurnFromWallet {
                program: ctx.locker_program.key,
                owner: ctx.owner,
                token_account: ctx.token_account,
                token_mint: ctx.token_mint,
                token_program: ctx.token_program,
                amount: amount,
            },
        ] && r->Ok_0.event == (Event::Burned {
            mint: ctx.token_mint.key,
            amount: amount,
            from_lock: false,
        }),
{
    if !ctx.owner.is_signer {
        return Err(ForgeError::Unauthorized);
    }
    let call = ServiceCall::BurnFromWallet {
        program: ctx.locker_program.key,
        owner: ctx.owner,
        token_account: ctx.token_account,
        token_mint: ctx.token_mint,
        token_program: ctx.token_program,
        amount,
    };
    Ok(single_call_plan(call, Event::Burned { mint: ctx.token_mint.key, amount, from_lock: false }))
}

/// The handles of a burn out of a lock.
#[derive(Debug, Clone, Copy)]
pub struct ProxyBurnFromLock {
    pub owner: Handle,
    pub token_mint: Handle,
    pub lock_record: Handle,
    pub vault: Handle,
    pub token_program: Handle,
    pub locker_program: Handle,
}

/// Plans burning `amount` units held in the lock `lock_id`.
pub fn handle_proxy_burn_from_lock(ctx: &ProxyBurnFromLock, amount: u64, lock_id: u64) -> (r:
    Result<Plan, ForgeError>)
    ensures
        !ctx.owner.is_signer ==> r == Err::<Plan, ForgeError>(ForgeError::Unauthorized),
        ctx.owner.is_signer ==> r is Ok && r->Ok_0.calls@ == seq![
            ServiceCall::BurnFromLock {
                program: ctx.locker_program.key,
                owner: ctx.owner,
                token_mint: ctx.token_mint,
                lock_record: ctx.lock_record,
                vault: ctx.vault,
                token_program: ctx.token_program,
                amount: amount,
                lock_id: lock_id,
            },
        ] && r->Ok_0.event == (Event::Burned {
            mint: ctx.token_mint.key,
            amount: amount,
            from_lock: true,
        }),
{
    if !ctx.owner.is_signer {
        return Err(ForgeError::Unauthorized);
    }
    let call = ServiceCall::BurnFromLock {
        program: ctx.locker_program.key,
        owner: ctx.owner,
        token_mint: ctx.token_mint,
        lock_record: ctx.lock_record,
        vault: ctx.vault,
        token_program: ctx.token_program,
        amount,
        lock_id,
    };
    Ok(single_call_plan(call, Event::Burned { mint: ctx.token_mint.key, amount, from_lock: true }))
}

/// The handles of closing an emptied vault.
#[derive(Debug, Clone, Copy)]
pub struct ProxyCloseVault {
    pub owner: Handle,
    pub lock_record: Handle,
    pub vault: Handle,
    pub token_mint: Handle,
    pub token_program: Handle,
    pub locker_program: Handle,
}

/// Plans closing the vault of the lock `lock_id`.
pub fn handle_proxy_close_vault(ctx: &ProxyCloseVault, lock_id: u64) -> (r: Result<Plan, ForgeError>)
    ensures
        !ctx.owner.is_signer ==> r == Err::<Plan, ForgeError>(ForgeError::Unauthorized),
        ctx.owner.is_signer ==> r is Ok && r->Ok_0.calls@ == seq![
            ServiceCall::CloseVault {
                program: ctx.locker_program.key,
                owner: ctx.owner,
                lock_record: ctx.lock_record,
                vault: ctx.vault,
                token_mint: ctx.token_mint,
                token_program: ctx.token_program,
                lock_id: lock_id,
            },
        ] && r->Ok_0.event == (Event::VaultClosed {
            mint: ctx.token_mint.key,
            owner: ctx.owner.key,
            lock_id: lock_id,
        }),
{
    if !ctx.owner.is_signer {
        return Err(ForgeError::Unauthorized);
    }
    let call = ServiceCall::CloseVault {
        program: ctx.locker_program.key,
        owner: ctx.owner,
        lock_record: ctx.lock_record,
        vault: ctx.vault,
        token_mint: ctx.token_mint,
        token_program: ctx.token_program,
        lock_id,
    };
    Ok(single_call_plan(call, Event::VaultClosed { mint: ctx.token_mint.key, owner: ctx.owner.key, lock_id }))
}

} // verus!
