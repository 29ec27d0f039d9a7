use vstd::prelude::*;

use crate::error::ErrorCode;
use crate::purchase::{Payment, PurchaseAccess};
use crate::pubkey::Pubkey;
use crate::registry::{RegisterModel, UpdateModelStatus};
use crate::state::{
    seconds_in_days, AccessType, Marketplace, Model, PaymentToken, MAX_HASH_LEN,
};
use crate::usage::{access_refusal, RecordDownload, RecordInference};

verus! {

/// What a creator hands in to list a model, and when.
pub ghost struct Listing {
    pub creator: Pubkey,
    pub model_bump: u8,
    pub name: String,
    pub description: String,
    pub model_hash: String,
    pub storage_uri: String,
    pub model_size: u64,
    pub inference_price: u64,
    pub download_price: u64,
    pub payment_token: PaymentToken,
    pub now: i64,
}

impl Listing {
    /// The records that the listing is registered on: the marketplace and an
    /// empty place for the model.
    pub open spec fn on(self, marketplace: Marketplace) -> RegisterModel {
        RegisterModel {
            model: None,
            marketplace,
            creator: self.creator,
            model_bump: self.model_bump,
        }
    }

    /// Why `register_model` refuses the listing on `marketplace`, if it
    /// does.
    pub open spec fn refusal(self, marketplace: Marketplace) -> Option<ErrorCode> {
        self.on(marketplace).refusal(
            self.name@,
            self.description@,
            self.model_hash@,
            self.storage_uri@,
        )
    }

    /// The records that `register_model` leaves for the listing on
    /// `marketplace`.
    pub open spec fn registered(self, marketplace: Marketplace) -> RegisterModel {
        self.on(marketplace).after_register(
            self.name,
            self.description,
            self.model_hash,
            self.storage_uri,
            self.model_size,
            self.inference_price,
            self.download_price,
            self.payment_token,
            self.now,
        )
    }
}

/// The marketplace after the listings were registered on it one after the
/// other.
pub open spec fn marketplace_after(marketplace: Marketplace, listings: Seq<Listing>) -> Marketplace
    decreases listings.len(),
{
    if listings.len() == 0 {
        marketplace
    } else {
        listings.last().registered(
            marketplace_after(marketplace, listings.drop_last()),
        ).marketplace
    }
}

/// Whether each of the listings is accepted when they are registered on the
/// marketplace one after the other.
pub open spec fn all_accepted(marketplace: Marketplace, listings: Seq<Listing>) -> bool {
    forall|i: int|
        0 <= i < listings.len() ==> (#[trigger] listings[i]).refusal(
            marketplace_after(marketplace, listings.take(i)),
        ) is None
}

/// The model that the listing at position `i` is registered as.
pub open spec fn model_listed(marketplace: Marketplace, listings: Seq<Listing>, i: int) -> Model {
    listings[i].registered(marketplace_after(marketplace, listings.take(i))).model->0
}

/// Models are numbered in the order of their registration. When one model
/// is registered and then, on the marketplace as the first registration
/// left it, a second, by the same creator or by another, each model gets the
/// count of models from before its registration as its number, and the
/// second number is the first plus one.
pub proof fn lemma_registrations_number_models(
    marketplace: Marketplace,
    first: Listing,
    second: Listing,
)
    requires
        first.refusal(marketplace) is None,
        second.refusal(first.registered(marketplace).marketplace) is None,
    ensures
        ({
            let after_first = first.registered(marketplace);
            let after_second = second.registered(after_first.marketplace);
            &&& after_first.model->0.model_id == marketplace.total_models
            &&& after_second.model->0.model_id == after_first.marketplace.total_models
            &&& after_second.model->0.model_id == after_first.model->0.model_id + 1
            &&& after_second.marketplace.total_models == marketplace.total_models + 2
        }),
{
}

/// The numbers of the models are dense and unique. When any listings are
/// registered on a marketplace one after the other and all are accepted, the
/// model at position `i` gets the number that is the marketplace's first
/// count of models plus `i`, so that no two of them share a number and no
/// number between them is left out; and the marketplace ends up counting
/// all of them.
pub proof fn lemma_model_numbers_are_dense(marketplace: Marketplace, listings: Seq<Listing>)
    requires
        all_accepted(marketplace, listings),
    ensures
        marketplace_after(marketplace, listings).total_models == marketplace.total_models
            + listings.len(),
        forall|i: int|
            0 <= i < listings.len() ==> (#[trigger] model_listed(
                marketplace,
                listings,
                i,
            )).model_id == marketplace.total_models + i,
        forall|i: int, j: int|
            0 <= i < j < listings.len() ==> (#[trigger] model_listed(
                marketplace,
                listings,
                i,
            )).model_id != (#[trigger] model_listed(marketplace, listings, j)).model_id,
{
    lemma_count_after(marketplace, listings, listings.len() as int);
    assert(listings.take(listings.len() as int) =~= listings);
    assert forall|i: int| 0 <= i < listings.len() implies (#[trigger] model_listed(
        marketplace,
        listings,
        i,
    )).model_id == marketplace.total_models + i by {
        lemma_count_after(marketplace, listings, i);
        assert(listings[i].refusal(marketplace_after(marketplace, listings.take(i))) is None);
    }
}

/// After the first `n` of the listings, all accepted, the marketplace
/// counts `n` models more.
proof fn lemma_count_after(marketplace: Marketplace, listings: Seq<Listing>, n: int)
    requires
        all_accepted(marketplace, listings),
        0 <= n <= listings.len(),
    ensures
        marketplace_after(marketplace, listings.take(n)).total_models == marketplace.total_models
            + n,
    decreases n,
{
    if n > 0 {
        lemma_count_after(marketplace, listings, n - 1);
        assert(listings.take(n).drop_last() =~= listings.take(n - 1));
        assert(listings.take(n).last() == listings[n - 1]);
        assert(listings[n - 1].refusal(marketplace_after(marketplace, listings.take(n - 1)))
            is None);
    }
}

/// A user holds at most one access right to a model. After an accepted
/// purchase, every further purchase on the same records is refused and
/// changes nothing, so that the first access right stays and no second
/// payment is asked for. The refusal is `DuplicateAccess` for every request
/// that would have been accepted in place of the first, the first itself
/// among them.
pub proof fn lemma_second_purchase_is_refused(
    ctx: PurchaseAccess,
    access_type: AccessType,
    duration_days: Option<u32>,
    now: i64,
    again_type: AccessType,
    again_days: Option<u32>,
    again_now: i64,
)
    requires
        ctx.refusal(access_type, duration_days, now) is None,
    ensures
        ({
            let bought = ctx.after_purchase(access_type, duration_days, now);
            &&& bought.access == Some(ctx.issued_access(access_type, duration_days, now))
            &&& bought.purchase_result(again_type, again_days, again_now) is Err
            &&& bought.after_purchase(again_type, again_days, again_now) == bought
            &&& ctx.refusal(again_type, again_days, again_now) is None
                ==> bought.purchase_result(again_type, again_days, again_now) == Err::<
                Payment,
                ErrorCode,
            >(ErrorCode::DuplicateAccess)
            &&& bought.purchase_result(access_type, duration_days, now) == Err::<
                Payment,
                ErrorCode,
            >(ErrorCode::DuplicateAccess)
        }),
{
}

/// An access right bought for `days` days at time `now` expires at
/// `now + days * 86400`: the user named in it can record an inference on
/// its model at every time before that, and at that time and later the
/// recording is refused with `AccessExpired`.
pub proof fn lemma_access_expires_after_duration(
    ctx: PurchaseAccess,
    access_type: AccessType,
    days: u32,
    now: i64,
    rec: RecordInference,
    inference_hash: Seq<char>,
    at: i64,
)
    requires
        ctx.refusal(access_type, Some(days), now) is None,
        rec.access == ctx.issued_access(access_type, Some(days), now),
        rec.user == ctx.user,
        rec.model_key == ctx.model_key,
    ensures
        rec.access.expires_at == Some((now + seconds_in_days(days)) as i64),
        rec.access.expires_at->0 == now + days * 86400,
        at >= now + days * 86400 ==> rec.record_result(inference_hash, at) == Err::<(), ErrorCode>(
            ErrorCode::AccessExpired,
        ),
        at < now + days * 86400 && inference_hash.len() <= MAX_HASH_LEN && rec.usage is None
            && rec.model.total_inferences < u64::MAX ==> rec.record_result(inference_hash, at)
            == Ok::<(), ErrorCode>(()),
{
}

/// A fingerprint is recorded once. After an accepted recording, every
/// further recording on the same records is refused and changes nothing, so
/// that the model's inferences were counted exactly once. The refusal is
/// `DuplicateUsage` whenever the access right can still be used.
pub proof fn lemma_replayed_usage_is_refused(
    ctx: RecordInference,
    inference_hash: String,
    now: i64,
    again_now: i64,
)
    requires
        ctx.refusal(inference_hash@, now) is None,
    ensures
        ({
            let recorded = ctx.after_record(inference_hash, now);
            &&& recorded.model.total_inferences == ctx.model.total_inferences + 1
            &&& recorded.access.inference_count == ctx.access.inference_count + 1
            &&& recorded.record_result(inference_hash@, again_now) is Err
            &&& recorded.after_record(inference_hash, again_now) == recorded
            &&& access_refusal(recorded.access, recorded.user, recorded.model_key, again_now)
                is None ==> recorded.record_result(inference_hash@, again_now) == Err::<
                (),
                ErrorCode,
            >(ErrorCode::DuplicateUsage)
            &&& recorded.record_result(inference_hash@, now) == Err::<(), ErrorCode>(
                ErrorCode::DuplicateUsage,
            )
        }),
{
}

/// Switching a model off stops purchases and nothing else. On a model that
/// its creator switched off, every purchase is refused with `ModelInactive`
/// and changes nothing, while recording an inference or a download under an
/// access right is answered as if the model were on: a user whose right is
/// switched on and has not run out still records a new fingerprint.
pub proof fn lemma_inactive_model_refuses_purchases_only(
    status: UpdateModelStatus,
    purchase: PurchaseAccess,
    access_type: AccessType,
    duration_days: Option<u32>,
    now: i64,
    inference: RecordInference,
    inference_hash: String,
    download: RecordDownload,
)
    requires
        status.creator == status.model.creator,
        purchase.model == status.after_update(false).model,
        inference.model == status.after_update(false).model,
        download.model == status.after_update(false).model,
    ensures
        !status.after_update(false).model.is_active,
        purchase.purchase_result(access_type, duration_days, now) == Err::<Payment, ErrorCode>(
            ErrorCode::ModelInactive,
        ),
        purchase.after_purchase(access_type, duration_days, now) == purchase,
        inference.access.user == inference.user && inference.access.model == inference.model_key
            && inference.access.usable_at(now) && inference_hash@.len() <= MAX_HASH_LEN
            && inference.usage is None && inference.access.inference_count < u64::MAX
            && inference.model.total_inferences < u64::MAX ==> inference.record_result(
            inference_hash@,
            now,
        ) == Ok::<(), ErrorCode>(()),
        inference.record_result(inference_hash@, now) == (RecordInference {
            model: status.after_update(true).model,
            ..inference
        }).record_result(inference_hash@, now),
        inference.after_record(inference_hash, now).access == (RecordInference {
            model: status.after_update(true).model,
            ..inference
        }).after_record(inference_hash, now).access,
        download.record_result(now) == (RecordDownload {
            model: status.after_update(true).model,
            ..download
        }).record_result(now),
{
}

} // verus!
