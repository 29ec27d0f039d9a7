use vstd::prelude::*;

use crate::error::ErrorCode;
use crate::pubkey::Pubkey;
use crate::state::{
    Marketplace, Model, PaymentToken, MAX_DESCRIPTION_LEN, MAX_HASH_LEN, MAX_NAME_LEN, MAX_URI_LEN,
};

verus! {

/// The records and identities that registering a model works on.
#[derive(Clone, Debug, PartialEq, Eq)]
pub struct RegisterModel {
    /// The place of the new model, at the address that
    /// `model_seeds(creator, marketplace.total_models)` derive: empty before
    /// it is registered.
    pub model: Option<Model>,
    pub marketplace: Marketplace,
    /// The caller, who becomes the model's owner.
    pub creator: Pubkey,
    /// The bump of the address of `model`.
    pub model_bump: u8,
}

/// The records and identities that switching a model on or off works on.
#[derive(Clone, Debug, PartialEq, Eq)]
pub struct UpdateModelStatus {
    pub model: Model,
    /// The caller.
    pub creator: Pubkey,
}

/// The records and identities that changing a model's prices works on.
#[derive(Clone, Debug, PartialEq, Eq)]
pub struct UpdateModelPricing {
    pub model: Model,
    /// The caller.
    pub creator: Pubkey,
}

/// The records and identities that a request to withdraw earnings works on.
#[derive(Clone, Debug, PartialEq, Eq)]
pub struct WithdrawEarnings {
    pub model: Model,
    /// The caller.
    pub creator: Pubkey,
}

impl RegisterModel {
    /// Why a registration is refused, if it is: the first of the checks that
    /// fails.
    pub open spec fn refusal(
        &self,
        name: Seq<char>,
        description: Seq<char>,
        model_hash: Seq<char>,
        storage_uri: Seq<char>,
    ) -> Option<ErrorCode> {
        if name.len() > MAX_NAME_LEN {
            Some(ErrorCode::NameTooLong)
        } else if description.len() > MAX_DESCRIPTION_LEN {
            Some(ErrorCode::DescriptionTooLong)
        } else if model_hash.len() > MAX_HASH_LEN {
            Some(ErrorCode::HashTooLong)
        } else if storage_uri.len() > MAX_URI_LEN {
            Some(ErrorCode::UriTooLong)
        } else if self.model is Some {
            Some(ErrorCode::AlreadyInitialized)
        } else if self.marketplace.total_models == u64::MAX {
            Some(ErrorCode::ArithmeticOverflow)
        } else {
            None
        }
    }

    /// The model that an accepted registration lists: active, unused, owned
    /// by the caller and numbered with the marketplace's count of models.
    pub open spec fn registered_model(
        &self,
        name: String,
        description: String,
        model_hash: String,
        storage_uri: String,
        model_size: u64,
        inference_price: u64,
        download_price: u64,
        payment_token: PaymentToken,
        now: i64,
    ) -> Model {
        Model {
            creator: self.creator,
            name,
            description,
            model_hash,
            storage_uri,
            model_size,
            inference_price,
            download_price,
            payment_token,
            total_inferences: 0,
            total_downloads: 0,
            total_revenue: 0,
            is_active: true,
            created_at: now,
            model_id: self.marketplace.total_models,
            bump: self.model_bump,
        }
    }

    /// What `register_model` returns.
    pub open spec fn register_result(
        &self,
        name: Seq<char>,
        description: Seq<char>,
        model_hash: Seq<char>,
        storage_uri: Seq<char>,
    ) -> Result<(), ErrorCode> {
        match self.refusal(name, description, model_hash, storage_uri) {
            Some(e) => Err(e),
            None => Ok(()),
        }
    }

    /// The records after `register_model`: unchanged if the registration is
    /// refused, else with the new model in its place and one more model
    /// counted.
    pub open spec fn after_register(
        &self,
        name: String,
        description: String,
        model_hash: String,
        storage_uri: String,
        model_size: u64,
        inference_price: u64,
        download_price: u64,
        payment_token: PaymentToken,
        now: i64,
    ) -> RegisterModel {
        match self.refusal(name@, description@, model_hash@, storage_uri@) {
            Some(_) => *self,
            None => RegisterModel {
                model: Some(
                    self.registered_model(
                        name,
                        description,
                        model_hash,
                        storage_uri,
                        model_size,
                        inference_price,
                        download_price,
                        payment_token,
                        now,
                    ),
                ),
                marketplace: Marketplace {
                    total_models: (self.marketplace.total_models + 1) as u64,
                    ..self.marketplace
                },
                ..*self
            },
        }
    }
}

/// Lists a new model of `ctx.creator` at time `now`.
///
/// Checks, in this order, the lengths of name, description, content hash and
/// storage location, that the model's place is empty, and that the count of
/// models can grow. If all hold, the model is put in its place with the
/// count as its number, and the count grows by one. Otherwise nothing is
/// changed.
pub fn register_model(
    ctx: &mut RegisterModel,
    name: String,
    description: String,
    model_hash: String,
    storage_uri: String,
    model_size: u64,
    inference_price: u64,
    download_price: u64,
    payment_token: PaymentToken,
    now: i64,
) -> (r: Result<(), ErrorCode>)
    ensures
        r == old(ctx).register_result(name@, description@, model_hash@, storage_uri@),
        *final(ctx) == old(ctx).after_register(
            name,
            description,
            model_hash,
            storage_uri,
            model_size,
            inference_price,
            download_price,
            payment_token,
            now,
        ),
        r is Ok ==> final(ctx).model->0.wf(),
        old(ctx).marketplace.wf() ==> final(ctx).marketplace.wf(),
{
    if name.as_str().unicode_len() > MAX_NAME_LEN {
        return Err(ErrorCode::NameTooLong);
    }
    if description.as_str().unicode_len() > MAX_DESCRIPTION_LEN {
        return Err(ErrorCode::DescriptionTooLong);
    }
    if model_hash.as_str().unicode_len() > MAX_HASH_LEN {
        return Err(ErrorCode::HashTooLong);
    }
    if storage_uri.as_str().unicode_len() > MAX_URI_LEN {
        return Err(ErrorCode::UriTooLong);
    }
    if ctx.model.is_some() {
        return Err(ErrorCode::AlreadyInitialized);
    }
    let count = match ctx.marketplace.total_models.checked_add(1) {
        Some(count) => count,
        None => { return Err(ErrorCode::ArithmeticOverflow); },
    };
    ctx.model = Some(
        Model {
            creator: ctx.creator,
            name,
            description,
            model_hash,
            storage_uri,
            model_size,
            inference_price,
            download_price,
            payment_token,
            total_inferences: 0,
            total_downloads: 0,
            total_revenue: 0,
            is_active: true,
            created_at: now,
            model_id: ctx.marketplace.total_models,
            bump: ctx.model_bump,
        },
    );
    ctx.marketplace.total_models = count;
    Ok(())
}

impl UpdateModelStatus {
    /// The records after `update_model_status`.
    pub open spec fn after_update(&self, is_active: bool) -> UpdateModelStatus {
        if self.creator == self.model.creator {
            UpdateModelStatus { model: Model { is_active, ..self.model }, ..*self }
        } else {
            *self
        }
    }
}

/// Switches `ctx.model` on or off, for its creator only.
///
/// Fails with `Unauthorized` exactly when the caller is not the model's
/// creator; then nothing is changed. Otherwise only the model's status
/// changes.
pub fn update_model_status(ctx: &mut UpdateModelStatus, is_active: bool) -> (r: Result<
    (),
    ErrorCode,
>)
    ensures
        r == owner_only(old(ctx).creator, old(ctx).model.creator),
        *final(ctx) == old(ctx).after_update(is_active),
        old(ctx).model.wf() ==> final(ctx).model.wf(),
{
    if !(ctx.creator == ctx.model.creator) {
        return Err(ErrorCode::Unauthorized);
    }
    ctx.model.is_active = is_active;
    Ok(())
}

impl UpdateModelPricing {
    /// The records after `update_model_pricing`: each price that is given
    /// replaces the model's, each that is not leaves it.
    pub open spec fn after_update(
        &self,
        inference_price: Option<u64>,
        download_price: Option<u64>,
    ) -> UpdateModelPricing {
        if self.creator == self.model.creator {
            UpdateModelPricing {
                model: Model {
                    inference_price: match inference_price {
                        Some(price) => price,
                        None => self.model.inference_price,
                    },
                    download_price: match download_price {
                        Some(price) => price,
                        None => self.model.download_price,
                    },
                    ..self.model
                },
                ..*self
            }
        } else {
            *self
        }
    }
}

/// Changes the prices of `ctx.model`, for its creator only.
///
/// Fails with `Unauthorized` exactly when the caller is not the model's
/// creator; then nothing is changed. Otherwise each price that is given
/// replaces the model's, and nothing else changes.
pub fn update_model_pricing(
    ctx: &mut UpdateModelPricing,
    inference_price: Option<u64>,
    download_price: Option<u64>,
) -> (r: Result<(), ErrorCode>)
    ensures
        r == owner_only(old(ctx).creator, old(ctx).model.creator),
        *final(ctx) == old(ctx).after_update(inference_price, download_price),
        old(ctx).model.wf() ==> final(ctx).model.wf(),
{
    if !(ctx.creator == ctx.model.creator) {
        return Err(ErrorCode::Unauthorized);
    }
    if let Some(price) = inference_price {
        ctx.model.inference_price = price;
    }
    if let Some(price) = download_price {
        ctx.model.download_price = price;
    }
    Ok(())
}

/// Takes a request of the creator of `ctx.model` to withdraw `amount`.
///
/// No earnings are kept per creator, so nothing is paid out and nothing is
/// changed. Fails with `Unauthorized` exactly when the caller is not the
/// model's creator.
pub fn withdraw_earnings(ctx: &WithdrawEarnings, amount: u64) -> (r: Result<(), ErrorCode>)
    ensures
        r == owner_only(ctx.creator, ctx.model.creator),
{
    if !(ctx.creator == ctx.model.creator) {
        return Err(ErrorCode::Unauthorized);
    }
    Ok(())
}

/// The answer to a caller of an operation that is its owner's alone.
pub open spec fn owner_only(caller: Pubkey, owner: Pubkey) -> Result<(), ErrorCode> {
    if caller == owner {
        Ok(())
    } else {
        Err(ErrorCode::Unauthorized)
    }
}

} // verus!
