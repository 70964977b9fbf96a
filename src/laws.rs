use vstd::prelude::*;
use crate::calls::{call_outcome, outcome_from, ServiceCall};
use crate::create_standard_token::{creation_calls, CreateStandardArgs, CreateStandardToken};
use crate::errors::ForgeError;
use crate::identifier::Pubkey;
use crate::token_ops::{mint_to_authorized, ProxyMintTo};
use crate::update_token_metadata::{is_metadata_update_calls, UpdateTokenMetadata};

verus! {

/// The units that a sequence of calls issues into `account`.
pub open spec fn minted_into(calls: Seq<ServiceCall>, account: Pubkey) -> int
    decreases calls.len(),
{
    if calls.len() == 0 {
        0
    } else {
        (match calls[0] {
            ServiceCall::MintTo { to, amount, .. } => if to == account {
                amount as int
            } else {
                0
            },
            _ => 0,
        }) + minted_into(calls.drop_first(), account)
    }
}

/// How many issuance calls a sequence of calls holds.
pub open spec fn mint_call_count(calls: Seq<ServiceCall>) -> nat
    decreases calls.len(),
{
    if calls.len() == 0 {
        0
    } else {
        (if calls[0] is MintTo { 1nat } else { 0nat }) + mint_call_count(calls.drop_first())
    }
}

/// Who may issue units of `mint` once a sequence of calls has run, starting
/// from `start`.
pub open spec fn mint_authority_after(calls: Seq<ServiceCall>, mint: Pubkey, start: Option<Pubkey>) -> Option<Pubkey>
    decreases calls.len(),
{
    if calls.len() == 0 {
        start
    } else {
        let next = match calls[0] {
            ServiceCall::SetMintAuthority { mint: m, new_authority, .. } => if m == mint {
                new_authority
            } else {
                start
            },
            _ => start,
        };
        mint_authority_after(calls.drop_first(), mint, next)
    }
}

proof fn lemma_creation_call_shapes(ctx: CreateStandardToken, args: CreateStandardArgs)
    ensures
        minted_into(creation_calls(ctx, args), ctx.token_account.key) == args.initial_supply,
        mint_call_count(creation_calls(ctx, args)) == if args.initial_supply > 0 { 1nat } else { 0nat },
        args.revoke_mint_authority ==> mint_authority_after(
            creation_calls(ctx, args),
            ctx.mint.key,
            Some(ctx.authority.key),
        ) == None::<Pubkey>,
{
    let calls = creation_calls(ctx, args);
    let rest = calls.drop_first().drop_first();
    reveal_with_fuel(minted_into, 5);
    reveal_with_fuel(mint_call_count, 5);
    reveal_with_fuel(mint_authority_after, 5);
    if args.initial_supply > 0 {
        assert(rest[0] is MintTo);
        if args.revoke_mint_authority {
            assert(rest.drop_first() =~= seq![rest[1]]);
            assert(rest.drop_first().drop_first() =~= Seq::<ServiceCall>::empty());
        } else {
            assert(rest.drop_first() =~= Seq::<ServiceCall>::empty());
        }
    } else {
        if args.revoke_mint_authority {
            assert(rest =~= seq![rest[0]]);
            assert(rest.drop_first() =~= Seq::<ServiceCall>::empty());
        } else {
            assert(rest =~= Seq::<ServiceCall>::empty());
        }
    }
}

/// A creation issues exactly its initial supply into the caller's holding
/// account: with a supply of zero it makes no issuance call at all, and
/// otherwise exactly one.
pub proof fn lemma_creation_issues_initial_supply(ctx: CreateStandardToken, args: CreateStandardArgs)
    ensures
        minted_into(creation_calls(ctx, args), ctx.token_account.key) == args.initial_supply,
        args.initial_supply == 0 ==> mint_call_count(creation_calls(ctx, args)) == 0,
        args.initial_supply > 0 ==> mint_call_count(creation_calls(ctx, args)) == 1,
{
    lemma_creation_call_shapes(ctx, args);
}

/// A creation that revokes the mint authority leaves the mint with no
/// issuing authority, so no later issuance against that mint is accepted.
pub proof fn lemma_revoked_mint_is_final(
    ctx: CreateStandardToken,
    args: CreateStandardArgs,
    later: ProxyMintTo,
)
    requires
        args.revoke_mint_authority,
        later.mint.handle.key == ctx.mint.key,
        later.mint.mint_authority == mint_authority_after(
            creation_calls(ctx, args),
            ctx.mint.key,
            Some(ctx.authority.key),
        ),
    ensures
        mint_authority_after(creation_calls(ctx, args), ctx.mint.key, Some(ctx.authority.key))
            == None::<Pubkey>,
        !mint_to_authorized(later),
{
    lemma_creation_call_shapes(ctx, args);
}

/// A creation gives the mint and its metadata record the same precision:
/// the caller's.
pub proof fn lemma_creation_decimals_agree(ctx: CreateStandardToken, args: CreateStandardArgs)
    ensures
        creation_calls(ctx, args)[0] matches ServiceCall::InitializeMint { mint, decimals, .. }
            && mint == ctx.mint.key && decimals == args.decimals,
        creation_calls(ctx, args)[1] matches ServiceCall::CreateMetadata { mint, decimals, .. }
            && mint == ctx.mint.key && decimals == args.decimals,
{
}

/// Once a call fails, the instruction fails with that call's error, whatever
/// the later calls would have done.
pub proof fn lemma_failed_call_aborts(n: nat, results: Seq<Result<(), u32>>, i: nat)
    requires
        i < n,
        i < results.len(),
        results[i as int] is Err,
        forall|j: int| 0 <= j < i ==> results[j] is Ok,
    ensures
        call_outcome(n, results) == Err::<(), ForgeError>(ForgeError::Service(results[i as int]->Err_0)),
{
    lemma_outcome_skips_successes(n, results, 0, i);
}

proof fn lemma_outcome_skips_successes(n: nat, results: Seq<Result<(), u32>>, k: nat, i: nat)
    requires
        k <= i,
        i < n,
        i < results.len(),
        forall|j: int| 0 <= j < i ==> results[j] is Ok,
    ensures
        outcome_from(n, results, k) == outcome_from(n, results, i),
    decreases i - k,
{
    if k < i {
        lemma_outcome_skips_successes(n, results, k + 1, i);
    }
}

/// A metadata update whose symbol step fails, after the name step
/// succeeded, fails as a whole with the symbol step's error: the uri step's
/// result is never consulted and no event is produced.
pub proof fn lemma_metadata_update_aborts_at_symbol(
    calls: Seq<ServiceCall>,
    ctx: UpdateTokenMetadata,
    name: Seq<char>,
    symbol: Seq<char>,
    uri: Seq<char>,
    results: Seq<Result<(), u32>>,
)
    requires
        is_metadata_update_calls(calls, ctx, name, symbol, uri),
        results.len() >= 2,
        results[0] is Ok,
        results[1] is Err,
    ensures
        call_outcome(calls.len(), results) == Err::<(), ForgeError>(
            ForgeError::Service(results[1]->Err_0),
        ),
{
    lemma_failed_call_aborts(calls.len(), results, 1);
}

} // verus!
