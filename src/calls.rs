use vstd::prelude::*;
use crate::errors::ForgeError;
use crate::events::{Event, EventRecord};
use crate::identifier::{Handle, Instruction, Pubkey};

verus! {

/// One synchronous call that an instruction delegates to an outside service;
/// `program` is the service that receives it.
#[derive(Debug, Clone)]
pub enum ServiceCall {
    /// Creates `mint` with the given precision and authorities, and, through
    /// `associated_token_program`, the holding account `token_account` of
    /// `owner` for it.
    InitializeMint {
        program: Pubkey,
        associated_token_program: Pubkey,
        mint: Pubkey,
        decimals: u8,
        mint_authority: Pubkey,
        freeze_authority: Pubkey,
        token_account: Pubkey,
        owner: Pubkey,
    },
    /// Registers metadata for `mint` as a fungible asset with a print supply
    /// of zero and no collection, uses or rule set, naming `creator` as sole
    /// creator with share `creator_share`; `authority` pays and holds the
    /// update authority.
    CreateMetadata {
        program: Pubkey,
        metadata: Pubkey,
        mint: Pubkey,
        authority: Pubkey,
        creator: Pubkey,
        creator_share: u8,
        creator_verified: bool,
        seller_fee_basis_points: u16,
        primary_sale_happened: bool,
        name: String,
        symbol: String,
        uri: String,
        decimals: u8,
        is_mutable: bool,
    },
    /// Issues `amount` new units of `mint` into the account `to`.
    MintTo { program: Pubkey, mint: Pubkey, to: Pubkey, authority: Pubkey, amount: u64 },
    /// Hands the mint-authority of `mint` over to `new_authority`.
    SetMintAuthority { program: Pubkey, mint: Pubkey, current_authority: Pubkey, new_authority: Option<Pubkey> },
    /// Moves `amount` units, checked against the mint's `decimals`.
    TransferChecked {
        program: Pubkey,
        from: Pubkey,
        mint: Pubkey,
        to: Pubkey,
        authority: Pubkey,
        amount: u64,
        decimals: u8,
    },
    /// A prepared call descriptor, passed to the invocation primitive as is;
    /// it names its own target program.
    Invoke(Instruction),
    LockTokens {
        program: Pubkey,
        owner: Handle,
        token_account: Handle,
        token_mint: Handle,
        lock_record: Handle,
        vault: Handle,
        token_program: Handle,
        amount: u64,
        unlock_timestamp: i64,
        lock_id: u64,
    },
    WithdrawTokens {
        program: Pubkey,
        owner: Handle,
        token_account: Handle,
        token_mint: Handle,
        lock_record: Handle,
        vault: Handle,
        token_program: Handle,
        lock_id: u64,
        amount: u64,
    },
    BurnFromWallet {
        program: Pubkey,
        owner: Handle,
        token_account: Handle,
        token_mint: Handle,
        token_program: Handle,
        amount: u64,
    },
    BurnFromLock {
        program: Pubkey,
        owner: Handle,
        token_mint: Handle,
        lock_record: Handle,
        vault: Handle,
        token_program: Handle,
        amount: u64,
        lock_id: u64,
    },
    CloseVault {
        program: Pubkey,
        owner: Handle,
        lock_record: Handle,
        vault: Handle,
        token_mint: Handle,
        token_program: Handle,
        lock_id: u64,
    },
    /// A batch burn: the whole flat handle list goes along, in its order.
    BurnBatch {
        program: Pubkey,
        burner: Handle,
        token_program: Handle,
        accounts: Vec<Handle>,
        amounts: Vec<u64>,
    },
}

/// What an instruction has decided once its caller is accepted: the calls to
/// issue, in order, and the event that reports their success.
#[derive(Debug, Clone)]
pub struct Plan {
    pub calls: Vec<ServiceCall>,
    pub event: Event,
}

/// A plan of exactly one call.
pub fn single_call_plan(call: ServiceCall, event: Event) -> (r: Plan)
    ensures
        r.calls@ == seq![call],
        r.event == event,
{
    let mut calls: Vec<ServiceCall> = Vec::new();
    calls.push(call);
    assert(calls@ =~= seq![call]);
    Plan { calls, event }
}

/// The result of the delegated calls of one instruction, read from the
/// results reported for its `n` calls, from index `i` on: the first failure
/// aborts, and a call with no report leaves the instruction incomplete.
pub open spec fn outcome_from(n: nat, results: Seq<Result<(), u32>>, i: nat) -> Result<(), ForgeError>
    decreases n - i,
{
    if i >= n {
        Ok(())
    } else if i >= results.len() {
        Err(ForgeError::Incomplete)
    } else if results[i as int] is Err {
        Err(ForgeError::Service(results[i as int]->Err_0))
    } else {
        outcome_from(n, results, i + 1)
    }
}

pub open spec fn call_outcome(n: nat, results: Seq<Result<(), u32>>) -> Result<(), ForgeError> {
    outcome_from(n, results, 0)
}

/// Reads the results of the calls in order and stops at the first failure.
pub fn check_results(n: usize, results: &Vec<Result<(), u32>>) -> (r: Result<(), ForgeError>)
    ensures
        r == call_outcome(n as nat, results@),
{
    let mut i: usize = 0;
    while i < n
        invariant
            i <= n,
            outcome_from(n as nat, results@, 0) == outcome_from(n as nat, results@, i as nat),
        decreases n - i,
    {
        if i >= results.len() {
            return Err(ForgeError::Incomplete);
        }
        match results[i] {
            Err(code) => {
                return Err(ForgeError::Service(code));
            },
            Ok(()) => {},
        }
        i = i + 1;
    }
    Ok(())
}

/// Concludes an instruction: its event, stamped with `now`, when every
/// planned call reported success; otherwise the first failure, and no event.
pub fn finish(plan: Plan, results: &Vec<Result<(), u32>>, now: i64) -> (r: Result<EventRecord, ForgeError>)
    ensures
        r == match call_outcome(plan.calls@.len(), results@) {
            Ok(_) => Ok(EventRecord { event: plan.event, timestamp: now }),
            Err(e) => Err::<EventRecord, ForgeError>(e),
        },
{
    match check_results(plan.calls.len(), results) {
        Ok(()) => Ok(EventRecord { event: plan.event, timestamp: now }),
        Err(e) => Err(e),
    }
}

} // verus!
