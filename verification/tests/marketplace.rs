use ai_marketplace::{
    initialize_marketplace, ErrorCode, InitializeMarketplace, Marketplace, Pubkey,
};

fn fresh_marketplace_ctx() -> InitializeMarketplace {
    InitializeMarketplace {
        marketplace: None,
        treasury: Pubkey::new_from_array([2u8; 32]),
        authority: Pubkey::new_from_array([1u8; 32]),
        marketplace_bump: 254,
    }
}

#[test]
fn initialize_writes_the_configuration() {
    let mut ctx = fresh_marketplace_ctx();
    assert_eq!(initialize_marketplace(&mut ctx, 250), Ok(()));
    assert_eq!(
        ctx.marketplace,
        Some(Marketplace {
            authority: Pubkey::new_from_array([1u8; 32]),
            treasury: Pubkey::new_from_array([2u8; 32]),
            protocol_fee_bps: 250,
            total_models: 0,
            bump: 254,
        })
    );
    assert_eq!(ctx.treasury, Pubkey::new_from_array([2u8; 32]));
    assert_eq!(ctx.authority, Pubkey::new_from_array([1u8; 32]));
}

#[test]
fn initialize_twice_is_refused() {
    let mut ctx = fresh_marketplace_ctx();
    assert_eq!(initialize_marketplace(&mut ctx, 250), Ok(()));
    let before = ctx;
    assert_eq!(
        initialize_marketplace(&mut ctx, 100),
        Err(ErrorCode::AlreadyInitialized)
    );
    assert_eq!(ctx, before);
    // the conflict is reported before the rate is looked at
    assert_eq!(
        initialize_marketplace(&mut ctx, 10001),
        Err(ErrorCode::AlreadyInitialized)
    );
    assert_eq!(ctx, before);
}

#[test]
fn initialize_with_a_rate_above_one_whole_is_refused() {
    let mut ctx = fresh_marketplace_ctx();
    assert_eq!(
        initialize_marketplace(&mut ctx, 10001),
        Err(ErrorCode::InvalidFee)
    );
    assert_eq!(ctx, fresh_marketplace_ctx());
    assert_eq!(
        initialize_marketplace(&mut ctx, u64::MAX),
        Err(ErrorCode::InvalidFee)
    );
    assert_eq!(ctx, fresh_marketplace_ctx());
}

#[test]
fn initialize_at_the_ends_of_the_rate() {
    let mut ctx = fresh_marketplace_ctx();
    assert_eq!(initialize_marketplace(&mut ctx, 10000), Ok(()));
    assert_eq!(ctx.marketplace.unwrap().protocol_fee_bps, 10000);
    let mut ctx = fresh_marketplace_ctx();
    assert_eq!(initialize_marketplace(&mut ctx, 0), Ok(()));
    assert_eq!(ctx.marketplace.unwrap().protocol_fee_bps, 0);
}

#[test]
fn record_sizes() {
    assert_eq!(Marketplace::LEN, 89);
    assert_eq!(ai_marketplace::Model::LEN, 987);
    assert_eq!(ai_marketplace::Access::LEN, 100);
    assert_eq!(ai_marketplace::Usage::LEN, 149);
}

#[test]
fn pubkey_is_its_bytes() {
    let mut bytes = [0u8; 32];
    for i in 0..32 {
        bytes[i] = i as u8;
    }
    let key = Pubkey::new_from_array(bytes);
    assert_eq!(key.to_bytes(), bytes);
    assert_eq!(key.to_vec(), bytes.to_vec());
    assert_eq!(key, Pubkey::new_from_array(bytes));
    let mut other = bytes;
    other[31] = 0;
    assert_ne!(key, Pubkey::new_from_array(other));
    let mut other = bytes;
    other[0] = 9;
    assert_ne!(key, Pubkey::new_from_array(other));
}
