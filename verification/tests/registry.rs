use ai_marketplace::{
    register_model, update_model_pricing, update_model_status, withdraw_earnings, ErrorCode,
    Marketplace, Model, PaymentToken, Pubkey, RegisterModel, UpdateModelPricing,
    UpdateModelStatus, WithdrawEarnings,
};

fn key(n: u8) -> Pubkey {
    Pubkey::new_from_array([n; 32])
}

fn open_marketplace(total_models: u64) -> Marketplace {
    Marketplace {
        authority: key(1),
        treasury: key(2),
        protocol_fee_bps: 250,
        total_models,
        bump: 254,
    }
}

fn registration(total_models: u64) -> RegisterModel {
    RegisterModel {
        model: None,
        marketplace: open_marketplace(total_models),
        creator: key(3),
        model_bump: 253,
    }
}

fn text(len: usize) -> String {
    "a".repeat(len)
}

fn register_plain(ctx: &mut RegisterModel, now: i64) -> Result<(), ErrorCode> {
    register_model(
        ctx,
        "llama".to_string(),
        "a language model".to_string(),
        "abc123".to_string(),
        "ipfs://model".to_string(),
        4096,
        1000,
        7000,
        PaymentToken::Sol,
        now,
    )
}

fn listed_model() -> Model {
    Model {
        creator: key(3),
        name: "llama".to_string(),
        description: "a language model".to_string(),
        model_hash: "abc123".to_string(),
        storage_uri: "ipfs://model".to_string(),
        model_size: 4096,
        inference_price: 1000,
        download_price: 7000,
        payment_token: PaymentToken::Sol,
        total_inferences: 5,
        total_downloads: 6,
        total_revenue: 0,
        is_active: true,
        created_at: 1_700_000_000,
        model_id: 0,
        bump: 253,
    }
}

#[test]
fn register_lists_the_model_and_counts_it() {
    let mut ctx = registration(0);
    assert_eq!(register_plain(&mut ctx, 1_700_000_000), Ok(()));
    assert_eq!(
        ctx.model,
        Some(Model {
            creator: key(3),
            name: "llama".to_string(),
            description: "a language model".to_string(),
            model_hash: "abc123".to_string(),
            storage_uri: "ipfs://model".to_string(),
            model_size: 4096,
            inference_price: 1000,
            download_price: 7000,
            payment_token: PaymentToken::Sol,
            total_inferences: 0,
            total_downloads: 0,
            total_revenue: 0,
            is_active: true,
            created_at: 1_700_000_000,
            model_id: 0,
            bump: 253,
        })
    );
    assert_eq!(ctx.marketplace, open_marketplace(1));
    assert_eq!(ctx.creator, key(3));
    assert_eq!(ctx.model_bump, 253);
}

#[test]
fn register_twice_numbers_the_models_in_order() {
    let mut first = registration(7);
    assert_eq!(register_plain(&mut first, 10), Ok(()));
    let mut second = RegisterModel {
        model: None,
        marketplace: first.marketplace,
        creator: key(3),
        model_bump: 200,
    };
    assert_eq!(register_plain(&mut second, 11), Ok(()));
    assert_eq!(first.model.as_ref().unwrap().model_id, 7);
    assert_eq!(second.model.as_ref().unwrap().model_id, 8);
    assert_eq!(second.marketplace.total_models, 9);
}

#[test]
fn register_accepts_texts_at_their_bounds() {
    let mut ctx = registration(0);
    assert_eq!(
        register_model(
            &mut ctx,
            text(100),
            text(500),
            text(64),
            text(200),
            0,
            0,
            0,
            PaymentToken::SplToken,
            -5,
        ),
        Ok(())
    );
    let model = ctx.model.unwrap();
    assert_eq!(model.name, text(100));
    assert_eq!(model.description, text(500));
    assert_eq!(model.model_hash, text(64));
    assert_eq!(model.storage_uri, text(200));
    assert_eq!(model.payment_token, PaymentToken::SplToken);
    assert_eq!(model.created_at, -5);
}

#[test]
fn register_counts_characters() {
    let mut ctx = registration(0);
    let name = "\u{e9}".repeat(100);
    assert_eq!(name.len(), 200);
    assert_eq!(
        register_model(
            &mut ctx,
            name,
            text(1),
            text(1),
            text(1),
            0,
            0,
            0,
            PaymentToken::Sol,
            0,
        ),
        Ok(())
    );
}

#[test]
fn register_refuses_a_long_name() {
    let mut ctx = registration(4);
    assert_eq!(
        register_model(
            &mut ctx,
            text(101),
            text(501),
            text(65),
            text(201),
            1,
            2,
            3,
            PaymentToken::Sol,
            0,
        ),
        Err(ErrorCode::NameTooLong)
    );
    assert_eq!(ctx, registration(4));
}

#[test]
fn register_refuses_a_long_description() {
    let mut ctx = registration(4);
    assert_eq!(
        register_model(
            &mut ctx,
            text(100),
            text(501),
            text(65),
            text(201),
            1,
            2,
            3,
            PaymentToken::Sol,
            0,
        ),
        Err(ErrorCode::DescriptionTooLong)
    );
    assert_eq!(ctx, registration(4));
}

#[test]
fn register_refuses_a_long_hash() {
    let mut ctx = registration(4);
    assert_eq!(
        register_model(
            &mut ctx,
            text(100),
            text(500),
            text(65),
            text(201),
            1,
            2,
            3,
            PaymentToken::Sol,
            0,
        ),
        Err(ErrorCode::HashTooLong)
    );
    assert_eq!(ctx, registration(4));
}

#[test]
fn register_refuses_a_long_uri() {
    let mut ctx = registration(4);
    assert_eq!(
        register_model(
            &mut ctx,
            text(100),
            text(500),
            text(64),
            text(201),
            1,
            2,
            3,
            PaymentToken::Sol,
            0,
        ),
        Err(ErrorCode::UriTooLong)
    );
    assert_eq!(ctx, registration(4));
}

#[test]
fn register_refuses_a_taken_place() {
    let mut ctx = registration(0);
    assert_eq!(register_plain(&mut ctx, 10), Ok(()));
    let before = ctx.clone();
    assert_eq!(
        register_plain(&mut ctx, 11),
        Err(ErrorCode::AlreadyInitialized)
    );
    assert_eq!(ctx, before);
}

#[test]
fn register_refuses_when_the_count_is_full() {
    let mut ctx = registration(u64::MAX);
    assert_eq!(
        register_plain(&mut ctx, 10),
        Err(ErrorCode::ArithmeticOverflow)
    );
    assert_eq!(ctx, registration(u64::MAX));
    let mut ctx = registration(u64::MAX - 1);
    assert_eq!(register_plain(&mut ctx, 10), Ok(()));
    assert_eq!(ctx.model.unwrap().model_id, u64::MAX - 1);
    assert_eq!(ctx.marketplace.total_models, u64::MAX);
}

#[test]
fn status_is_set_by_the_creator() {
    let mut ctx = UpdateModelStatus { model: listed_model(), creator: key(3) };
    assert_eq!(update_model_status(&mut ctx, false), Ok(()));
    assert_eq!(ctx.model, Model { is_active: false, ..listed_model() });
    assert_eq!(ctx.creator, key(3));
    assert_eq!(update_model_status(&mut ctx, false), Ok(()));
    assert_eq!(ctx.model, Model { is_active: false, ..listed_model() });
    assert_eq!(update_model_status(&mut ctx, true), Ok(()));
    assert_eq!(ctx.model, listed_model());
}

#[test]
fn status_is_not_set_by_anyone_else() {
    let mut ctx = UpdateModelStatus { model: listed_model(), creator: key(4) };
    assert_eq!(
        update_model_status(&mut ctx, false),
        Err(ErrorCode::Unauthorized)
    );
    assert_eq!(ctx, UpdateModelStatus { model: listed_model(), creator: key(4) });
}

#[test]
fn pricing_updates_what_is_given() {
    let mut ctx = UpdateModelPricing { model: listed_model(), creator: key(3) };
    assert_eq!(update_model_pricing(&mut ctx, Some(5), None), Ok(()));
    assert_eq!(ctx.model, Model { inference_price: 5, ..listed_model() });
    assert_eq!(update_model_pricing(&mut ctx, None, Some(6)), Ok(()));
    assert_eq!(
        ctx.model,
        Model { inference_price: 5, download_price: 6, ..listed_model() }
    );
    assert_eq!(update_model_pricing(&mut ctx, None, None), Ok(()));
    assert_eq!(
        ctx.model,
        Model { inference_price: 5, download_price: 6, ..listed_model() }
    );
    assert_eq!(update_model_pricing(&mut ctx, Some(0), Some(u64::MAX)), Ok(()));
    assert_eq!(
        ctx.model,
        Model { inference_price: 0, download_price: u64::MAX, ..listed_model() }
    );
}

#[test]
fn pricing_is_not_updated_by_anyone_else() {
    let mut ctx = UpdateModelPricing { model: listed_model(), creator: key(9) };
    assert_eq!(
        update_model_pricing(&mut ctx, Some(5), Some(6)),
        Err(ErrorCode::Unauthorized)
    );
    assert_eq!(ctx, UpdateModelPricing { model: listed_model(), creator: key(9) });
}

#[test]
fn withdrawal_is_the_creators_and_changes_nothing() {
    let ctx = WithdrawEarnings { model: listed_model(), creator: key(3) };
    assert_eq!(withdraw_earnings(&ctx, 500), Ok(()));
    assert_eq!(ctx, WithdrawEarnings { model: listed_model(), creator: key(3) });
    let ctx = WithdrawEarnings { model: listed_model(), creator: key(4) };
    assert_eq!(withdraw_earnings(&ctx, 500), Err(ErrorCode::Unauthorized));
}
