//! Orchestration layer of a token-management program: every instruction
//! checks its caller, plans the calls it delegates to outside services, and
//! produces its event only once every delegated call has succeeded.
mod calls;
mod create_standard_token;
mod custody;
mod errors;
mod events;
mod identifier;
mod laws;
mod state;
mod token_ops;
mod update_token_metadata;

pub use calls::{
    call_outcome, check_results, finish, outcome_from, single_call_plan, Plan, ServiceCall,
};
pub use create_standard_token::{
    creation_authorized, creation_calls, creation_event, finish_creation,
    handle_create_standard_token, initialize_mint_call, metadata_call, CreateStandardArgs, CreateStandardToken,
};
pub use custody::{
    batch_mints, group_of, handle_proxy_burn_batch, handle_proxy_burn_from_lock,
    handle_proxy_burn_from_wallet, handle_proxy_close_vault, handle_proxy_lock_tokens,
    handle_proxy_withdraw_tokens, pairs_with, resolve_batch, HandlePair, ProxyBurnBatch,
    ProxyBurnFromLock, ProxyBurnFromWallet, ProxyCloseVault, ProxyLockTokens,
    ProxyWithdrawTokens,
};
pub use errors::ForgeError;
pub use events::{Event, EventRecord};
pub use identifier::{AccountMeta, Handle, Instruction, Pubkey};
pub use laws::{
    lemma_creation_decimals_agree, lemma_creation_issues_initial_supply, lemma_failed_call_aborts,
    lemma_metadata_update_aborts_at_symbol, lemma_revoked_mint_is_final, mint_authority_after,
    mint_call_count, minted_into,
};
pub use state::{initialize_user, may_debit, MintAccount, TokenAccount, UserRecord};
pub use token_ops::{
    handle_proxy_mint_to, handle_transfer_token, mint_to_authorized, transfer_authorized,
    ProxyMintTo, TransferToken,
};
pub use update_token_metadata::{
    encodable_value, handle_update_token_metadata, is_metadata_update_calls, is_update_field_ix,
    metadata_update_authorized, token_2022_program, update_field_accounts, update_field_data,
    update_metadata_field, MetadataField, UpdateTokenMetadata, TOKEN_2022_PROGRAM_ID,
};
