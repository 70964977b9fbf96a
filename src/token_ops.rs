use vstd::prelude::*;
use crate::calls::{single_call_plan, Plan, ServiceCall};
use crate::errors::ForgeError;
use crate::events::Event;
use crate::identifier::Handle;
use crate::state::{may_debit, MintAccount, TokenAccount};

verus! {

/// The handles of a direct issuance.
#[derive(Debug, Clone, Copy)]
pub struct ProxyMintTo {
    pub authority: Handle,
    pub mint: MintAccount,
    pub to: TokenAccount,
    pub token_program: Handle,
}

/// The caller signs and is the mint's current issuing authority.
pub open spec fn mint_to_authorized(ctx: ProxyMintTo) -> bool {
    ctx.authority.is_signer && ctx.mint.mint_authority == Some(ctx.authority.key)
}

/// Plans the issuance of `amount` new units into `to`.
pub fn handle_proxy_mint_to(ctx: &ProxyMintTo, amount: u64) -> (r: Result<Plan, ForgeError>)
    ensures
        !mint_to_authorized(*ctx) ==> r == Err::<Plan, ForgeError>(ForgeError::Unauthorized),
        mint_to_authorized(*ctx) ==> r is Ok && r->Ok_0.calls@ == seq![
            ServiceCall::MintTo {
                program: ctx.token_program.key,
                mint: ctx.mint.handle.key,
                to: ctx.to.handle.key,
                authority: ctx.authority.key,
                amount: amount,
            },
        ] && r->Ok_0.event == (Event::TokenMinted { mint: ctx.mint.handle.key, amount: amount }),
{
    let authorized = match ctx.mint.mint_authority {
        Some(a) => ctx.authority.is_signer && a == ctx.authority.key,
        None => false,
    };
    if !authorized {
        return Err(ForgeError::Unauthorized);
    }
    let call = ServiceCall::MintTo {
        program: ctx.token_program.key,
        mint: ctx.mint.handle.key,
        to: ctx.to.handle.key,
        authority: ctx.authority.key,
        amount,
    };
    Ok(single_call_plan(call, Event::TokenMinted { mint: ctx.mint.handle.key, amount }))
}

/// The handles of a transfer.
#[derive(Debug, Clone, Copy)]
pub struct TransferToken {
    pub authority: Handle,
    pub from: TokenAccount,
    pub to: TokenAccount,
    pub mint: MintAccount,
    pub token_program: Handle,
}

/// The caller signs and may debit `amount` units from the source account.
pub open spec fn transfer_authorized(ctx: TransferToken, amount: u64) -> bool {
    ctx.authority.is_signer && may_debit(ctx.from, ctx.authority.key, amount)
}

/// Plans a transfer of `amount` units, checked against the precision the
/// mint records; the event names the caller as sender.
pub fn handle_transfer_token(ctx: &TransferToken, amount: u64) -> (r: Result<Plan, ForgeError>)
    ensures
        !transfer_authorized(*ctx, amount) ==> r == Err::<Plan, ForgeError>(ForgeError::Unauthorized),
        transfer_authorized(*ctx, amount) ==> r is Ok && r->Ok_0.calls@ == seq![
            ServiceCall::TransferChecked {
                program: ctx.token_program.key,
                from: ctx.from.handle.key,
                mint: ctx.mint.handle.key,
                to: ctx.to.handle.key,
                authority: ctx.authority.key,
                amount: amount,
                decimals: ctx.mint.decimals,
            },
        ] && r->Ok_0.event == (Event::TokenTransferred {
            mint: ctx.mint.handle.key,
            from: ctx.authority.key,
            to: ctx.to.handle.key,
            amount: amount,
        }),
{
    let as_owner = ctx.from.owner == ctx.authority.key;
    let as_delegate = match ctx.from.delegate {
        Some(d) => d == ctx.authority.key && ctx.from.delegated_amount >= amount,
        None => false,
    };
    if !ctx.authority.is_signer || !(as_owner || as_delegate) {
        return Err(ForgeError::Unauthorized);
    }
    let decimals = ctx.mint.decimals;
    let call = ServiceCall::TransferChecked {
        program: ctx.token_program.key,
        from: ctx.from.handle.key,
        mint: ctx.mint.handle.key,
        to: ctx.to.handle.key,
        authority: ctx.authority.key,
        amount,
        decimals,
    };
    let event = Event::TokenTransferred {
        mint: ctx.mint.handle.key,
        from: ctx.authority.key,
        to: ctx.to.handle.key,
        amount,
    };
    Ok(single_call_plan(call, event))
}

} // verus!
