use transfer_hook::address::Address;
use transfer_hook::error::HookError;
use transfer_hook::pda::find_metadata_address;
use transfer_hook::provision::{initialize_extra_account_meta_list, plan_meta_list, InitializeExtraAccountMetaList, MetaListAccountState};

fn addr(b: u8) -> Address {
    Address::new([b; 32])
}

fn init_accounts(meta: Address, lamports: u64, data_len: u64) -> InitializeExtraAccountMetaList {
    InitializeExtraAccountMetaList {
        payer: addr(20),
        extra_account_meta_list: MetaListAccountState { address: meta, lamports, data_len },
        mint: addr(9),
        token_program: addr(5),
        associated_token_program: addr(21),
        system_program: addr(0),
    }
}

#[test]
fn empty_list_record_layout() {
    let ctx = init_accounts(addr(4), 0, 0);
    let created = plan_meta_list(&ctx, &Some((addr(4), 254))).unwrap();
    assert_eq!(created.address, addr(4));
    assert_eq!(created.bump, 254);
    assert_eq!(created.space, 16);
    assert_eq!(created.data, vec![105, 37, 101, 197, 75, 251, 102, 26, 4, 0, 0, 0, 0, 0, 0, 0]);
}

#[test]
fn provisioning_twice_is_refused() {
    let program = addr(42);
    let (meta, bump) = find_metadata_address(&addr(9), &program).unwrap();
    let first = initialize_extra_account_meta_list(&init_accounts(meta, 0, 0), &program).unwrap();
    assert_eq!(first.bump, bump);
    let after = init_accounts(meta, 1_000_000, first.space);
    assert_eq!(
        initialize_extra_account_meta_list(&after, &program),
        Err(HookError::AccountAlreadyInitialized)
    );
}

#[test]
fn funded_but_empty_address_is_refused() {
    let ctx = init_accounts(addr(4), 1, 0);
    assert_eq!(plan_meta_list(&ctx, &Some((addr(4), 255))), Err(HookError::AccountAlreadyInitialized));
}

#[test]
fn record_at_wrong_address_is_refused() {
    let ctx = init_accounts(addr(4), 0, 0);
    assert_eq!(plan_meta_list(&ctx, &Some((addr(3), 255))), Err(HookError::MetadataAddressMismatch));
    assert_eq!(plan_meta_list(&ctx, &None), Err(HookError::MetadataAddressMismatch));
    let program = addr(42);
    assert_eq!(initialize_extra_account_meta_list(&ctx, &program), Err(HookError::MetadataAddressMismatch));
}
