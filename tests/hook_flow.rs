use anchor_lang::solana_program::pubkey::Pubkey;
use transfer_hook::address::Address;
use transfer_hook::error::HookError;
use transfer_hook::hook::{plan_transfer_hook, transfer_hook, TokenAccountState, TokenTransfer, TransferHook};
use transfer_hook::pda::find_metadata_address;
use transfer_hook::provision::{initialize_extra_account_meta_list, InitializeExtraAccountMetaList, MetaListAccountState};

fn addr(b: u8) -> Address {
    Address::new([b; 32])
}

fn holding(address: u8, mint: u8, owner: u8, amount: u64) -> TokenAccountState {
    TokenAccountState { address: addr(address), mint: addr(mint), owner: addr(owner), amount }
}

fn hook_accounts(meta_list: Address) -> TransferHook {
    TransferHook {
        source_token: holding(1, 9, 7, 1000),
        mint: addr(9),
        destination_token: holding(2, 9, 8, 0),
        royalty_token_account: holding(3, 9, 6, 0),
        owner: addr(7),
        extra_account_meta_list: meta_list,
        token_program: addr(5),
    }
}

fn apply(accounts: &mut [TokenAccountState], t: &TokenTransfer) {
    let from = accounts.iter().position(|a| a.address == t.from).unwrap();
    assert!(accounts[from].owner == t.authority);
    assert!(accounts[from].amount >= t.amount);
    accounts[from].amount -= t.amount;
    let to = accounts.iter().position(|a| a.address == t.to).unwrap();
    accounts[to].amount += t.amount;
}

#[test]
fn planned_transfers_for_one_hundred() {
    let ctx = hook_accounts(addr(4));
    let r = plan_transfer_hook(&ctx, &Some(addr(4)), 100).unwrap();
    assert_eq!(r.len(), 2);
    assert_eq!(r[0], TokenTransfer { from: addr(1), to: addr(3), authority: addr(7), amount: 5 });
    assert_eq!(r[1], TokenTransfer { from: addr(1), to: addr(2), authority: addr(7), amount: 95 });
}

#[test]
fn zero_amount_still_plans_two_transfers() {
    let ctx = hook_accounts(addr(4));
    let r = plan_transfer_hook(&ctx, &Some(addr(4)), 0).unwrap();
    assert_eq!(r.len(), 2);
    assert_eq!(r[0].amount, 0);
    assert_eq!(r[1].amount, 0);
    assert_eq!(r[0].to, addr(3));
}

#[test]
fn mismatched_assets_fail_before_any_transfer() {
    let mut ctx = hook_accounts(addr(4));
    ctx.destination_token.mint = addr(10);
    assert_eq!(plan_transfer_hook(&ctx, &Some(addr(4)), 100), Err(HookError::MintMismatch));
    let mut ctx = hook_accounts(addr(4));
    ctx.royalty_token_account.mint = addr(11);
    assert_eq!(plan_transfer_hook(&ctx, &Some(addr(4)), 100), Err(HookError::MintMismatch));
    let mut ctx = hook_accounts(addr(4));
    ctx.source_token.mint = addr(12);
    assert_eq!(plan_transfer_hook(&ctx, &Some(addr(4)), 100), Err(HookError::MintMismatch));
}

#[test]
fn wrong_owner_is_refused() {
    let mut ctx = hook_accounts(addr(4));
    ctx.owner = addr(8);
    assert_eq!(plan_transfer_hook(&ctx, &Some(addr(4)), 100), Err(HookError::OwnerMismatch));
}

#[test]
fn wrong_metadata_record_is_refused() {
    let ctx = hook_accounts(addr(4));
    assert_eq!(plan_transfer_hook(&ctx, &Some(addr(13)), 100), Err(HookError::MetadataAddressMismatch));
    assert_eq!(plan_transfer_hook(&ctx, &None, 100), Err(HookError::MetadataAddressMismatch));
}

#[test]
fn overflowing_amount_is_refused() {
    let ctx = hook_accounts(addr(4));
    assert_eq!(plan_transfer_hook(&ctx, &Some(addr(4)), u64::MAX), Err(HookError::ArithmeticOverflow));
}

#[test]
fn metadata_address_is_the_program_derived_one() {
    let program = [42u8; 32];
    let mint = addr(9);
    let (found, bump) = find_metadata_address(&mint, &Address::new(program)).unwrap();
    let (expected, expected_bump) = Pubkey::find_program_address(
        &[b"extra-account-metas", &[9u8; 32]],
        &Pubkey::new_from_array(program),
    );
    assert_eq!(found.bytes, expected.to_bytes());
    assert_eq!(bump, expected_bump);
    assert_ne!(found, mint);
}

#[test]
fn handler_refuses_record_not_derived_from_asset() {
    let program = addr(42);
    let ctx = hook_accounts(addr(4));
    assert_eq!(transfer_hook(&ctx, &program, 100), Err(HookError::MetadataAddressMismatch));
}

#[test]
fn provision_then_transfer_end_to_end() {
    let program = addr(42);
    let (meta, _) = find_metadata_address(&addr(9), &program).unwrap();
    let init = InitializeExtraAccountMetaList {
        payer: addr(20),
        extra_account_meta_list: MetaListAccountState { address: meta, lamports: 0, data_len: 0 },
        mint: addr(9),
        token_program: addr(5),
        associated_token_program: addr(21),
        system_program: addr(0),
    };
    let created = initialize_extra_account_meta_list(&init, &program).unwrap();
    assert_eq!(created.address, meta);
    assert_eq!(created.space, 16);

    let ctx = hook_accounts(created.address);
    let transfers = transfer_hook(&ctx, &program, 1000).unwrap();
    let mut accounts = [ctx.source_token, ctx.destination_token, ctx.royalty_token_account];
    for t in &transfers {
        apply(&mut accounts, t);
    }
    assert_eq!(accounts[0].amount, 0);
    assert_eq!(accounts[1].amount, 950);
    assert_eq!(accounts[2].amount, 50);
}
