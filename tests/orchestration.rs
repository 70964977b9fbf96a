use solana_forge::{
    check_results, finish, finish_creation, handle_create_standard_token,
    handle_proxy_burn_batch, handle_proxy_burn_from_lock, handle_proxy_burn_from_wallet,
    handle_proxy_close_vault, handle_proxy_lock_tokens, handle_proxy_mint_to,
    handle_proxy_withdraw_tokens, handle_transfer_token, handle_update_token_metadata,
    initialize_user, resolve_batch, update_metadata_field, CreateStandardArgs,
    CreateStandardToken, Event, ForgeError, Handle, MetadataField, MintAccount, ProxyBurnBatch,
    ProxyBurnFromLock, ProxyBurnFromWallet, ProxyCloseVault, ProxyLockTokens, ProxyMintTo,
    ProxyWithdrawTokens, Pubkey, ServiceCall, TokenAccount, TransferToken, UpdateTokenMetadata,
    UserRecord, TOKEN_2022_PROGRAM_ID,
};

fn key(n: u8) -> Pubkey {
    let mut b = [0u8; 32];
    b[0] = n;
    b[31] = n.wrapping_mul(7);
    Pubkey::new_from_array(b)
}

fn handle(n: u8, signer: bool) -> Handle {
    Handle { key: key(n), is_signer: signer, is_writable: true, owner: key(200) }
}

fn creation_ctx(signer: bool) -> CreateStandardToken {
    CreateStandardToken {
        authority: handle(1, signer),
        mint: handle(2, true),
        token_account: handle(3, false),
        metadata: handle(4, false),
        token_metadata_program: handle(5, false),
        system_program: handle(6, false),
        token_program: handle(7, false),
        associated_token_program: handle(8, false),
        rent: handle(9, false),
        instructions: handle(10, false),
    }
}

fn args(supply: u64, revoke_mint: bool) -> CreateStandardArgs {
    CreateStandardArgs {
        name: "Forge".to_string(),
        symbol: "FRG".to_string(),
        uri: "https://example.org/frg.json".to_string(),
        decimals: 9,
        initial_supply: supply,
        revoke_update_authority: false,
        revoke_mint_authority: revoke_mint,
    }
}

fn mint_account(authority: Option<Pubkey>, decimals: u8) -> MintAccount {
    MintAccount { handle: handle(2, false), decimals, mint_authority: authority }
}

fn token_account(n: u8, owner: Pubkey) -> TokenAccount {
    TokenAccount { handle: handle(n, false), mint: key(2), owner, delegate: None, delegated_amount: 0 }
}

#[test]
fn pubkey_equality_is_bytewise() {
    assert_eq!(key(1), key(1));
    assert_ne!(key(1), key(2));
    let mut b = key(1).to_bytes();
    b[17] = 1;
    assert_ne!(Pubkey::new_from_array(b), key(1));
}

#[test]
fn initialize_user_needs_signer() {
    let r = initialize_user(&handle(1, true)).unwrap();
    assert_eq!(r.authority, key(1));
    assert_eq!(r.token_count, 0);
    assert!(matches!(initialize_user(&handle(1, false)), Err(ForgeError::Unauthorized)));
}

#[test]
fn unauthorized_callers_are_refused_everywhere() {
    let user = UserRecord::new(key(1));
    assert!(matches!(
        handle_create_standard_token(&user, &creation_ctx(false), args(5, false)),
        Err(ForgeError::Unauthorized)
    ));
    let stranger = UserRecord::new(key(99));
    assert!(matches!(
        handle_create_standard_token(&stranger, &creation_ctx(true), args(5, false)),
        Err(ForgeError::Unauthorized)
    ));
    let mint_ctx = ProxyMintTo {
        authority: handle(1, true),
        mint: mint_account(Some(key(42)), 6),
        to: token_account(3, key(1)),
        token_program: handle(7, false),
    };
    assert!(matches!(handle_proxy_mint_to(&mint_ctx, 10), Err(ForgeError::Unauthorized)));
    let transfer_ctx = TransferToken {
        authority: handle(1, true),
        from: token_account(3, key(42)),
        to: token_account(11, key(12)),
        mint: mint_account(None, 6),
        token_program: handle(7, false),
    };
    assert!(matches!(handle_transfer_token(&transfer_ctx, 10), Err(ForgeError::Unauthorized)));
    let meta_ctx = UpdateTokenMetadata {
        authority: handle(1, false),
        metadata: handle(2, false),
        update_authority: Some(key(1)),
        token_program: handle(7, false),
    };
    assert!(matches!(
        handle_update_token_metadata(&meta_ctx, "a".to_string(), "b".to_string(), "c".to_string()),
        Err(ForgeError::Unauthorized)
    ));
    let batch_ctx = ProxyBurnBatch {
        burner: handle(1, false),
        locker_program: handle(20, false),
        token_program: handle(7, false),
    };
    assert!(matches!(
        handle_proxy_burn_batch(&batch_ctx, vec![handle(2, false), handle(3, false)], vec![5]),
        Err(ForgeError::Unauthorized)
    ));
    let lock_ctx = ProxyLockTokens {
        owner: handle(1, false),
        token_account: handle(3, false),
        token_mint: handle(2, false),
        lock_record: handle(21, false),
        vault: handle(22, false),
        token_program: handle(7, false),
        locker_program: handle(20, false),
    };
    assert!(matches!(handle_proxy_lock_tokens(&lock_ctx, 5, 100, 1), Err(ForgeError::Unauthorized)));
    let withdraw_ctx = ProxyWithdrawTokens {
        owner: handle(1, false),
        token_account: handle(3, false),
        token_mint: handle(2, false),
        lock_record: handle(21, false),
        vault: handle(22, false),
        token_program: handle(7, false),
        locker_program: handle(20, false),
    };
    assert!(matches!(handle_proxy_withdraw_tokens(&withdraw_ctx, 1, 5), Err(ForgeError::Unauthorized)));
    let wallet_ctx = ProxyBurnFromWallet {
        owner: handle(1, false),
        token_account: handle(3, false),
        token_mint: handle(2, false),
        token_program: handle(7, false),
        locker_program: handle(20, false),
    };
    assert!(matches!(handle_proxy_burn_from_wallet(&wallet_ctx, 5), Err(ForgeError::Unauthorized)));
    let lock_burn_ctx = ProxyBurnFromLock {
        owner: handle(1, false),
        token_mint: handle(2, false),
        lock_record: handle(21, false),
        vault: handle(22, false),
        token_program: handle(7, false),
        locker_program: handle(20, false),
    };
    assert!(matches!(handle_proxy_burn_from_lock(&lock_burn_ctx, 5, 1), Err(ForgeError::Unauthorized)));
    let close_ctx = ProxyCloseVault {
        owner: handle(1, false),
        lock_record: handle(21, false),
        vault: handle(22, false),
        token_mint: handle(2, false),
        token_program: handle(7, false),
        locker_program: handle(20, false),
    };
    assert!(matches!(handle_proxy_close_vault(&close_ctx, 1), Err(ForgeError::Unauthorized)));
}

#[test]
fn creation_with_zero_supply_issues_nothing() {
    let mut user = UserRecord::new(key(1));
    let plan = handle_create_standard_token(&user, &creation_ctx(true), args(0, false)).unwrap();
    assert_eq!(plan.calls.len(), 2);
    assert!(!plan.calls.iter().any(|c| matches!(c, ServiceCall::MintTo { .. })));
    match &plan.calls[0] {
        ServiceCall::InitializeMint { decimals, mint_authority, token_account, .. } => {
            assert_eq!(*decimals, 9);
            assert_eq!(*mint_authority, key(1));
            assert_eq!(*token_account, key(3));
        },
        other => panic!("unexpected first call {:?}", other),
    }
    match &plan.calls[1] {
        ServiceCall::CreateMetadata {
            creator,
            creator_share,
            creator_verified,
            seller_fee_basis_points,
            primary_sale_happened,
            is_mutable,
            decimals,
            name,
            ..
        } => {
            assert_eq!(*creator, key(1));
            assert_eq!(*creator_share, 100);
            assert!(*creator_verified);
            assert_eq!(*seller_fee_basis_points, 0);
            assert!(!*primary_sale_happened);
            assert!(*is_mutable);
            assert_eq!(*decimals, 9);
            assert_eq!(name, "Forge");
        },
        other => panic!("unexpected second call {:?}", other),
    }
    let rec = finish_creation(plan, &vec![Ok(()), Ok(())], &mut user, 1_700_000_000).unwrap();
    assert_eq!(rec.timestamp, 1_700_000_000);
    match rec.event {
        Event::StandardTokenCreated { supply, mint, .. } => {
            assert_eq!(supply, 0);
            assert_eq!(mint, key(2));
        },
        other => panic!("unexpected event {:?}", other),
    }
    assert_eq!(user.token_count, 1);
}

#[test]
fn creation_with_supply_issues_it_once_into_holding_account() {
    let plan = handle_create_standard_token(&UserRecord::new(key(1)), &creation_ctx(true), args(500, false))
        .unwrap();
    assert_eq!(plan.calls.len(), 3);
    let mints: Vec<&ServiceCall> =
        plan.calls.iter().filter(|c| matches!(c, ServiceCall::MintTo { .. })).collect();
    assert_eq!(mints.len(), 1);
    match mints[0] {
        ServiceCall::MintTo { to, amount, authority, mint, .. } => {
            assert_eq!(*to, key(3));
            assert_eq!(*amount, 500);
            assert_eq!(*authority, key(1));
            assert_eq!(*mint, key(2));
        },
        _ => unreachable!(),
    }
    assert!(matches!(plan.event, Event::StandardTokenCreated { supply: 500, .. }));
}

#[test]
fn revoke_update_authority_makes_metadata_immutable() {
    let mut a = args(0, false);
    a.revoke_update_authority = true;
    let plan = handle_create_standard_token(&UserRecord::new(key(1)), &creation_ctx(true), a).unwrap();
    assert!(matches!(plan.calls[1], ServiceCall::CreateMetadata { is_mutable: false, .. }));
}

#[test]
fn counter_at_maximum_overflows_and_stays() {
    let mut user = UserRecord { authority: key(1), token_count: u64::MAX };
    assert_eq!(user.increment(), Err(ForgeError::Overflow));
    assert_eq!(user.token_count, u64::MAX);
    let plan = handle_create_standard_token(&user, &creation_ctx(true), args(0, false)).unwrap();
    let r = finish_creation(plan, &vec![Ok(()), Ok(())], &mut user, 5);
    assert!(matches!(r, Err(ForgeError::Overflow)));
    assert_eq!(user.token_count, u64::MAX);
    assert_eq!(user.authority, key(1));
}

#[test]
fn counter_increments_by_one() {
    let mut user = UserRecord { authority: key(1), token_count: 41 };
    assert_eq!(user.increment(), Ok(()));
    assert_eq!(user.token_count, 42);
}

#[test]
fn failed_creation_leaves_record_untouched() {
    let mut user = UserRecord::new(key(1));
    let plan = handle_create_standard_token(&user, &creation_ctx(true), args(10, true)).unwrap();
    let r = finish_creation(plan, &vec![Ok(()), Ok(()), Err(3)], &mut user, 5);
    assert!(matches!(r, Err(ForgeError::Service(3))));
    assert_eq!(user.token_count, 0);
    let plan = handle_create_standard_token(&user, &creation_ctx(true), args(10, true)).unwrap();
    let r = finish_creation(plan, &vec![Ok(()), Ok(()), Ok(())], &mut user, 5);
    assert!(matches!(r, Err(ForgeError::Incomplete)));
    assert_eq!(user.token_count, 0);
}

#[test]
fn revoked_mint_authority_blocks_later_mint_to() {
    let plan = handle_create_standard_token(&UserRecord::new(key(1)), &creation_ctx(true), args(10, true))
        .unwrap();
    assert_eq!(plan.calls.len(), 4);
    match &plan.calls[3] {
        ServiceCall::SetMintAuthority { mint, current_authority, new_authority, .. } => {
            assert_eq!(*mint, key(2));
            assert_eq!(*current_authority, key(1));
            assert!(new_authority.is_none());
        },
        other => panic!("unexpected last call {:?}", other),
    }
    let later = ProxyMintTo {
        authority: handle(1, true),
        mint: mint_account(None, 9),
        to: token_account(3, key(1)),
        token_program: handle(7, false),
    };
    assert!(matches!(handle_proxy_mint_to(&later, 1), Err(ForgeError::Unauthorized)));
}

#[test]
fn mint_to_by_authority_plans_issuance() {
    let ctx = ProxyMintTo {
        authority: handle(1, true),
        mint: mint_account(Some(key(1)), 9),
        to: token_account(3, key(1)),
        token_program: handle(7, false),
    };
    let plan = handle_proxy_mint_to(&ctx, 77).unwrap();
    assert!(matches!(plan.calls[0], ServiceCall::MintTo { amount: 77, .. }));
    let rec = finish(plan, &vec![Ok(())], 9).unwrap();
    assert!(matches!(rec.event, Event::TokenMinted { amount: 77, .. }));
}

#[test]
fn transfer_uses_recorded_decimals() {
    let ctx = TransferToken {
        authority: handle(1, true),
        from: token_account(3, key(1)),
        to: token_account(11, key(12)),
        mint: mint_account(Some(key(1)), 6),
        token_program: handle(7, false),
    };
    let plan = handle_transfer_token(&ctx, 1_000_000).unwrap();
    assert_eq!(plan.calls.len(), 1);
    match &plan.calls[0] {
        ServiceCall::TransferChecked { decimals, amount, from, to, .. } => {
            assert_eq!(*decimals, 6);
            assert_eq!(*amount, 1_000_000);
            assert_eq!(*from, key(3));
            assert_eq!(*to, key(11));
        },
        other => panic!("unexpected call {:?}", other),
    }
    let rec = finish(plan, &vec![Ok(())], 12).unwrap();
    match rec.event {
        Event::TokenTransferred { from, to, amount, mint } => {
            assert_eq!(from, key(1));
            assert_eq!(to, key(11));
            assert_eq!(amount, 1_000_000);
            assert_eq!(mint, key(2));
        },
        other => panic!("unexpected event {:?}", other),
    }
}

#[test]
fn batch_burn_pairs_handles_by_position() {
    let ctx = ProxyBurnBatch {
        burner: handle(1, true),
        locker_program: handle(20, false),
        token_program: handle(7, false),
    };
    let handles = vec![handle(30, false), handle(31, false), handle(32, false), handle(33, false)];
    let plan = handle_proxy_burn_batch(&ctx, handles, vec![5, 10]).unwrap();
    match &plan.calls[0] {
        ServiceCall::BurnBatch { accounts, amounts, burner, .. } => {
            let keys: Vec<Pubkey> = accounts.iter().map(|h| h.key).collect();
            assert_eq!(keys, vec![key(30), key(31), key(32), key(33)]);
            assert_eq!(amounts, &vec![5, 10]);
            assert_eq!(burner.key, key(1));
        },
        other => panic!("unexpected call {:?}", other),
    }
    let rec = finish(plan, &vec![Ok(())], 3).unwrap();
    match rec.event {
        Event::BatchBurned { burner, mints, amounts } => {
            assert_eq!(burner, key(1));
            assert_eq!(mints, vec![key(30), key(32)]);
            assert_eq!(amounts, vec![5, 10]);
        },
        other => panic!("unexpected event {:?}", other),
    }
}

#[test]
fn batch_burn_with_short_handle_list_is_malformed() {
    let ctx = ProxyBurnBatch {
        burner: handle(1, true),
        locker_program: handle(20, false),
        token_program: handle(7, false),
    };
    let handles = vec![handle(30, false), handle(31, false), handle(32, false)];
    assert!(matches!(handle_proxy_burn_batch(&ctx, handles, vec![5, 10]), Err(ForgeError::MalformedBatch)));
}

#[test]
fn resolve_batch_edges() {
    assert_eq!(resolve_batch(&vec![], 0).unwrap().len(), 0);
    assert!(matches!(resolve_batch(&vec![handle(1, false)], 0), Err(ForgeError::MalformedBatch)));
    assert!(matches!(
        resolve_batch(&vec![handle(1, false), handle(2, false)], 2),
        Err(ForgeError::MalformedBatch)
    ));
    let g = resolve_batch(&vec![handle(1, false), handle(2, false)], 1).unwrap();
    assert_eq!(g[0].primary.key, key(1));
    assert_eq!(g[0].secondary.key, key(2));
}

#[test]
fn metadata_update_calls_each_field_in_order() {
    let ctx = UpdateTokenMetadata {
        authority: handle(1, true),
        metadata: handle(2, false),
        update_authority: Some(key(1)),
        token_program: handle(7, false),
    };
    let plan =
        handle_update_token_metadata(&ctx, "New".to_string(), "NW".to_string(), "u".to_string()).unwrap();
    assert_eq!(plan.calls.len(), 3);
    let mut datas = Vec::new();
    for c in &plan.calls {
        match c {
            ServiceCall::Invoke(ix) => {
                assert_eq!(ix.program_id, Pubkey::new_from_array(TOKEN_2022_PROGRAM_ID));
                assert_eq!(ix.accounts.len(), 2);
                datas.push(ix.data.clone());
            },
            other => panic!("unexpected call {:?}", other),
        }
    }
    // Field tags 0, 1, 2 follow the 8-byte discriminator.
    assert_eq!(datas[0][8], 0);
    assert_eq!(datas[1][8], 1);
    assert_eq!(datas[2][8], 2);
    let rec = finish(plan, &vec![Ok(()), Ok(()), Ok(())], 4).unwrap();
    match rec.event {
        Event::MetadataUpdated { name, symbol, uri, mint } => {
            assert_eq!(name, "New");
            assert_eq!(symbol, "NW");
            assert_eq!(uri, "u");
            assert_eq!(mint, key(2));
        },
        other => panic!("unexpected event {:?}", other),
    }
}

#[test]
fn metadata_update_failing_at_symbol_emits_nothing() {
    let ctx = UpdateTokenMetadata {
        authority: handle(1, true),
        metadata: handle(2, false),
        update_authority: Some(key(1)),
        token_program: handle(7, false),
    };
    let plan =
        handle_update_token_metadata(&ctx, "New".to_string(), "NW".to_string(), "u".to_string()).unwrap();
    let r = finish(plan, &vec![Ok(()), Err(17)], 4);
    assert!(matches!(r, Err(ForgeError::Service(17))));
}

#[test]
fn update_field_call_descriptor() {
    let ctx = UpdateTokenMetadata {
        authority: handle(1, true),
        metadata: handle(2, false),
        update_authority: Some(key(1)),
        token_program: handle(7, false),
    };
    let ix = update_metadata_field(&ctx, MetadataField::Symbol, "abc".to_string());
    assert_eq!(ix.program_id, Pubkey::new_from_array(TOKEN_2022_PROGRAM_ID));
    assert_eq!(ix.program_id.to_bytes()[0], 6);
    assert_eq!(ix.program_id.to_bytes()[31], 252);
    assert_eq!(ix.accounts[0].pubkey, key(2));
    assert!(ix.accounts[0].is_writable);
    assert!(!ix.accounts[0].is_signer);
    assert_eq!(ix.accounts[1].pubkey, key(1));
    assert!(ix.accounts[1].is_signer);
    assert!(!ix.accounts[1].is_writable);
    assert_eq!(ix.data.len(), 8 + 1 + 4 + 3);
    assert_eq!(&ix.data[8..], &[1u8, 3, 0, 0, 0, b'a', b'b', b'c'][..]);
}

#[test]
fn results_are_read_in_order() {
    assert_eq!(check_results(2, &vec![Ok(())]), Err(ForgeError::Incomplete));
    assert_eq!(check_results(2, &vec![Err(4), Err(5)]), Err(ForgeError::Service(4)));
    assert_eq!(check_results(2, &vec![Ok(()), Ok(()), Err(9)]), Ok(()));
    assert_eq!(check_results(0, &vec![]), Ok(()));
}

#[test]
fn custody_proxies_forward_one_call_and_report() {
    let lock_ctx = ProxyLockTokens {
        owner: handle(1, true),
        token_account: handle(3, false),
        token_mint: handle(2, false),
        lock_record: handle(21, false),
        vault: handle(22, false),
        token_program: handle(7, false),
        locker_program: handle(20, false),
    };
    let plan = handle_proxy_lock_tokens(&lock_ctx, 50, 1_800_000_000, 4).unwrap();
    assert!(matches!(plan.calls[0], ServiceCall::LockTokens { amount: 50, unlock_timestamp: 1_800_000_000, lock_id: 4, .. }));
    assert!(matches!(plan.event, Event::TokensLocked { amount: 50, lock_id: 4, .. }));
    let withdraw_ctx = ProxyWithdrawTokens {
        owner: handle(1, true),
        token_account: handle(3, false),
        token_mint: handle(2, false),
        lock_record: handle(21, false),
        vault: handle(22, false),
        token_program: handle(7, false),
        locker_program: handle(20, false),
    };
    let plan = handle_proxy_withdraw_tokens(&withdraw_ctx, 4, 20).unwrap();
    assert!(matches!(plan.calls[0], ServiceCall::WithdrawTokens { amount: 20, lock_id: 4, .. }));
    let wallet_ctx = ProxyBurnFromWallet {
        owner: handle(1, true),
        token_account: handle(3, false),
        token_mint: handle(2, false),
        token_program: handle(7, false),
        locker_program: handle(20, false),
    };
    let plan = handle_proxy_burn_from_wallet(&wallet_ctx, 8).unwrap();
    assert!(matches!(plan.event, Event::Burned { amount: 8, from_lock: false, .. }));
    let lock_burn_ctx = ProxyBurnFromLock {
        owner: handle(1, true),
        token_mint: handle(2, false),
        lock_record: handle(21, false),
        vault: handle(22, false),
        token_program: handle(7, false),
        locker_program: handle(20, false),
    };
    let plan = handle_proxy_burn_from_lock(&lock_burn_ctx, 9, 4).unwrap();
    assert!(matches!(plan.calls[0], ServiceCall::BurnFromLock { amount: 9, lock_id: 4, .. }));
    assert!(matches!(plan.event, Event::Burned { amount: 9, from_lock: true, .. }));
    let close_ctx = ProxyCloseVault {
        owner: handle(1, true),
        lock_record: handle(21, false),
        vault: handle(22, false),
        token_mint: handle(2, false),
        token_program: handle(7, false),
        locker_program: handle(20, false),
    };
    let plan = handle_proxy_close_vault(&close_ctx, 4).unwrap();
    let rec = finish(plan, &vec![Ok(())], 77).unwrap();
    assert_eq!(rec.timestamp, 77);
    match rec.event {
        Event::VaultClosed { mint, owner, lock_id } => {
            assert_eq!(mint, key(2));
            assert_eq!(owner, key(1));
            assert_eq!(lock_id, 4);
        },
        other => panic!("unexpected event {:?}", other),
    }
}

#[test]
fn metadata_update_needs_recorded_update_authority() {
    let mut ctx = UpdateTokenMetadata {
        authority: handle(1, true),
        metadata: handle(2, false),
        update_authority: Some(key(42)),
        token_program: handle(7, false),
    };
    let r = handle_update_token_metadata(&ctx, "a".to_string(), "b".to_string(), "c".to_string());
    assert!(matches!(r, Err(ForgeError::Unauthorized)));
    ctx.update_authority = None;
    let r = handle_update_token_metadata(&ctx, "a".to_string(), "b".to_string(), "c".to_string());
    assert!(matches!(r, Err(ForgeError::Unauthorized)));
}

#[test]
fn calls_name_their_target_service() {
    let plan = handle_create_standard_token(&UserRecord::new(key(1)), &creation_ctx(true), args(10, true))
        .unwrap();
    assert!(matches!(plan.calls[0], ServiceCall::InitializeMint { program, associated_token_program, .. }
        if program == key(7) && associated_token_program == key(8)));
    assert!(matches!(plan.calls[1], ServiceCall::CreateMetadata { program, .. } if program == key(5)));
    assert!(matches!(plan.calls[2], ServiceCall::MintTo { program, .. } if program == key(7)));
    assert!(matches!(plan.calls[3], ServiceCall::SetMintAuthority { program, .. } if program == key(7)));
    let ctx = ProxyCloseVault {
        owner: handle(1, true),
        lock_record: handle(21, false),
        vault: handle(22, false),
        token_mint: handle(2, false),
        token_program: handle(7, false),
        locker_program: handle(20, false),
    };
    let plan = handle_proxy_close_vault(&ctx, 4).unwrap();
    assert!(matches!(plan.calls[0], ServiceCall::CloseVault { program, .. } if program == key(20)));
    let batch_ctx = ProxyBurnBatch {
        burner: handle(1, true),
        locker_program: handle(20, false),
        token_program: handle(7, false),
    };
    let plan = handle_proxy_burn_batch(&batch_ctx, vec![handle(30, false), handle(31, false)], vec![1]).unwrap();
    assert!(matches!(plan.calls[0], ServiceCall::BurnBatch { program, .. } if program == key(20)));
}

#[test]
fn transfer_by_approved_delegate_within_allowance() {
    let mut from = token_account(3, key(42));
    from.delegate = Some(key(1));
    from.delegated_amount = 500;
    let ctx = TransferToken {
        authority: handle(1, true),
        from,
        to: token_account(11, key(12)),
        mint: mint_account(None, 6),
        token_program: handle(7, false),
    };
    let plan = handle_transfer_token(&ctx, 500).unwrap();
    assert!(matches!(plan.calls[0], ServiceCall::TransferChecked { amount: 500, decimals: 6, authority, .. }
        if authority == key(1)));
    let rec = finish(plan, &vec![Ok(())], 1).unwrap();
    assert!(matches!(rec.event, Event::TokenTransferred { from, amount: 500, .. } if from == key(1)));
    assert!(matches!(handle_transfer_token(&ctx, 501), Err(ForgeError::Unauthorized)));
}
