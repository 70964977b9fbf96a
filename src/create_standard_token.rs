use vstd::prelude::*;
use crate::calls::{call_outcome, check_results, Plan, ServiceCall};
use crate::errors::ForgeError;
use crate::events::{Event, EventRecord};
use crate::identifier::Handle;
use crate::state::UserRecord;

verus! {

/// The handles a token creation works with.
#[derive(Debug, Clone, Copy)]
pub struct CreateStandardToken {
    pub authority: Handle,
    pub mint: Handle,
    pub token_account: Handle,
    pub metadata: Handle,
    pub token_metadata_program: Handle,
    pub system_program: Handle,
    pub token_program: Handle,
    pub associated_token_program: Handle,
    pub rent: Handle,
    pub instructions: Handle,
}

/// What the caller asks of a token creation.
#[derive(Debug, Clone)]
pub struct CreateStandardArgs {
    pub name: String,
    pub symbol: String,
    pub uri: String,
    pub decimals: u8,
    pub initial_supply: u64,
    pub revoke_update_authority: bool,
    pub revoke_mint_authority: bool,
}

/// The caller signs and is the owner recorded on the user record.
pub open spec fn creation_authorized(user: UserRecord, ctx: CreateStandardToken) -> bool {
    ctx.authority.is_signer && user.authority == ctx.authority.key
}

pub open spec fn metadata_call(ctx: CreateStandardToken, args: CreateStandardArgs) -> ServiceCall {
    ServiceCall::CreateMetadata {
        program: ctx.token_metadata_program.key,
        metadata: ctx.metadata.key,
        mint: ctx.mint.key,
        authority: ctx.authority.key,
        creator: ctx.authority.key,
        creator_share: 100,
        creator_verified: true,
        seller_fee_basis_points: 0,
        primary_sale_happened: false,
        name: args.name,
        symbol: args.symbol,
        uri: args.uri,
        decimals: args.decimals,
        is_mutable: !args.revoke_update_authority,
    }
}

pub open spec fn initialize_mint_call(ctx: CreateStandardToken, args: CreateStandardArgs) -> ServiceCall {
    ServiceCall::InitializeMint {
        program: ctx.token_program.key,
        associated_token_program: ctx.associated_token_program.key,
        mint: ctx.mint.key,
        decimals: args.decimals,
        mint_authority: ctx.authority.key,
        freeze_authority: ctx.authority.key,
        token_account: ctx.token_account.key,
        owner: ctx.authority.key,
    }
}

/// The calls of a creation, in order: the mint and the caller's holding
/// account for it, metadata, then the initial supply when
/// there is one, then the revocation of the mint authority when asked for.
pub open spec fn creation_calls(ctx: CreateStandardToken, args: CreateStandardArgs) -> Seq<ServiceCall> {
    seq![initialize_mint_call(ctx, args), metadata_call(ctx, args)] + (if args.initial_supply > 0 {
        seq![
            ServiceCall::MintTo {
                program: ctx.token_program.key,
                mint: ctx.mint.key,
                to: ctx.token_account.key,
                authority: ctx.authority.key,
                amount: args.initial_supply,
            },
        ]
    } else {
        Seq::empty()
    }) + (if args.revoke_mint_authority {
        seq![
            ServiceCall::SetMintAuthority {
                program: ctx.token_program.key,
                mint: ctx.mint.key,
                current_authority: ctx.authority.key,
                new_authority: None,
            },
        ]
    } else {
        Seq::empty()
    })
}

pub open spec fn creation_event(ctx: CreateStandardToken, args: CreateStandardArgs) -> Event {
    Event::StandardTokenCreated {
        mint: ctx.mint.key,
        name: args.name,
        symbol: args.symbol,
        uri: args.uri,
        supply: args.initial_supply,
    }
}

/// Plans the creation of a fungible asset for the owner of `user`.
pub fn handle_create_standard_token(
    user: &UserRecord,
    ctx: &CreateStandardToken,
    args: CreateStandardArgs,
) -> (r: Result<Plan, ForgeError>)
    ensures
        !creation_authorized(*user, *ctx) ==> r == Err::<Plan, ForgeError>(ForgeError::Unauthorized),
        creation_authorized(*user, *ctx) ==> r is Ok && r->Ok_0.calls@ == creation_calls(*ctx, args)
            && r->Ok_0.event == creation_event(*ctx, args),
{
    if !ctx.authority.is_signer || user.authority != ctx.authority.key {
        return Err(ForgeError::Unauthorized);
    }
    let mut calls: Vec<ServiceCall> = Vec::new();
    calls.push(
        ServiceCall::InitializeMint {
            program: ctx.token_program.key,
            associated_token_program: ctx.associated_token_program.key,
            mint: ctx.mint.key,
            decimals: args.decimals,
            mint_authority: ctx.authority.key,
            freeze_authority: ctx.authority.key,
            token_account: ctx.token_account.key,
            owner: ctx.authority.key,
        },
    );
    calls.push(
        ServiceCall::CreateMetadata {
            program: ctx.token_metadata_program.key,
            metadata: ctx.metadata.key,
            mint: ctx.mint.key,
            authority: ctx.authority.key,
            creator: ctx.authority.key,
            creator_share: 100,
            creator_verified: true,
            seller_fee_basis_points: 0,
            primary_sale_happened: false,
            name: args.name.clone(),
            symbol: args.symbol.clone(),
            uri: args.uri.clone(),
            decimals: args.decimals,
            is_mutable: !args.revoke_update_authority,
        },
    );
    if args.initial_supply > 0 {
        calls.push(
            ServiceCall::MintTo {
                program: ctx.token_program.key,
                mint: ctx.mint.key,
                to: ctx.token_account.key,
                authority: ctx.authority.key,
                amount: args.initial_supply,
            },
        );
    }
    if args.revoke_mint_authority {
        calls.push(
            ServiceCall::SetMintAuthority {
                program: ctx.token_program.key,
                mint: ctx.mint.key,
                current_authority: ctx.authority.key,
                new_authority: None,
            },
        );
    }
    assert(calls@ =~= creation_calls(*ctx, args));
    let event = Event::StandardTokenCreated {
        mint: ctx.mint.key,
        name: args.name,
        symbol: args.symbol,
        uri: args.uri,
        supply: args.initial_supply,
    };
    Ok(Plan { calls, event })
}

/// Concludes a creation: once every planned call succeeded, counts the new
/// asset on the user record and stamps the event. On any failure the record
/// is left as it was and no event is produced.
pub fn finish_creation(
    plan: Plan,
    results: &Vec<Result<(), u32>>,
    user: &mut UserRecord,
    now: i64,
) -> (r: Result<EventRecord, ForgeError>)
    ensures
        call_outcome(plan.calls@.len(), results@) is Err ==> r == Err::<EventRecord, ForgeError>(
            call_outcome(plan.calls@.len(), results@)->Err_0,
        ) && *final(user) == *old(user),
        call_outcome(plan.calls@.len(), results@) is Ok && old(user).token_count == u64::MAX ==> r
            == Err::<EventRecord, ForgeError>(ForgeError::Overflow) && *final(user) == *old(user),
        call_outcome(plan.calls@.len(), results@) is Ok && old(user).token_count < u64::MAX ==> r
            == Ok::<EventRecord, ForgeError>(EventRecord { event: plan.event, timestamp: now })
            && final(user).authority == old(user).authority && final(user).token_count == old(
            user,
        ).token_count + 1,
{
    match check_results(plan.calls.len(), results) {
        Err(e) => Err(e),
        Ok(()) => match user.increment() {
            Err(e) => Err(e),
            Ok(()) => Ok(EventRecord { event: plan.event, timestamp: now }),
        },
    }
}

} // verus!
