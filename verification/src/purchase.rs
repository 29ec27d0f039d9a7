use vstd::prelude::*;

use crate::error::ErrorCode;
use crate::pricing::{access_price, expires_at, expiry, quote_price, split_of, split_payment};
use crate::pubkey::Pubkey;
use crate::state::{Access, AccessType, Marketplace, Model, PaymentToken};

verus! {

/// One movement of value that the caller has to carry out.
#[derive(Clone, Copy, Debug, PartialEq, Eq)]
pub struct Transfer {
    pub token: PaymentToken,
    pub from: Pubkey,
    pub to: Pubkey,
    pub amount: u64,
}

/// The two movements of value that pay for an access right, in the order in
/// which they are to be made.
#[derive(Clone, Copy, Debug, PartialEq, Eq)]
pub struct Payment {
    pub creator: Transfer,
    pub treasury: Transfer,
}

/// The records and identities that a purchase works on.
#[derive(Clone, Debug, PartialEq, Eq)]
pub struct PurchaseAccess {
    /// The place of the access right of `user` to the model, at the address
    /// that `access_seeds(user, model_key)` derive: empty before a first
    /// purchase.
    pub access: Option<Access>,
    pub model: Model,
    /// The address under which `model` is stored.
    pub model_key: Pubkey,
    pub marketplace: Marketplace,
    /// The buyer, who pays.
    pub user: Pubkey,
    /// The bump of the address of `access`.
    pub access_bump: u8,
}

impl PurchaseAccess {
    /// The price of the requested access right, if the request names one.
    pub open spec fn price(&self, access_type: AccessType, duration_days: Option<u32>) -> Option<
        int,
    > {
        access_price(
            self.model.inference_price,
            self.model.download_price,
            access_type,
            duration_days,
        )
    }

    /// Why a purchase is refused, if it is: the first of the checks that
    /// fails.
    pub open spec fn refusal(
        &self,
        access_type: AccessType,
        duration_days: Option<u32>,
        now: i64,
    ) -> Option<ErrorCode> {
        if !self.model.is_active {
            Some(ErrorCode::ModelInactive)
        } else if self.price(access_type, duration_days) is None {
            Some(ErrorCode::InvalidDuration)
        } else if self.price(access_type, duration_days)->0 > u64::MAX {
            Some(ErrorCode::ArithmeticOverflow)
        } else if split_of(
            self.price(access_type, duration_days)->0 as u64,
            self.marketplace.protocol_fee_bps,
        ) is Err {
            Some(ErrorCode::ArithmeticOverflow)
        } else if expiry(now, duration_days) matches Some(end) && end > i64::MAX {
            Some(ErrorCode::ArithmeticOverflow)
        } else if self.access is Some {
            Some(ErrorCode::DuplicateAccess)
        } else {
            None
        }
    }

    /// The access right that an accepted purchase issues.
    pub open spec fn issued_access(
        &self,
        access_type: AccessType,
        duration_days: Option<u32>,
        now: i64,
    ) -> Access {
        Access {
            user: self.user,
            model: self.model_key,
            access_type,
            purchased_at: now,
            expires_at: match expiry(now, duration_days) {
                Some(end) => Some(end as i64),
                None => None,
            },
            inference_count: 0,
            is_active: true,
            bump: self.access_bump,
        }
    }

    /// The payment that an accepted purchase asks for: from the buyer to the
    /// model's creator and to the marketplace's treasury, in the model's kind
    /// of value.
    pub open spec fn payment(&self, access_type: AccessType, duration_days: Option<u32>) -> Payment {
        let split = split_of(
            self.price(access_type, duration_days)->0 as u64,
            self.marketplace.protocol_fee_bps,
        )->Ok_0;
        Payment {
            creator: Transfer {
                token: self.model.payment_token,
                from: self.user,
                to: self.model.creator,
                amount: split.creator_amount,
            },
            treasury: Transfer {
                token: self.model.payment_token,
                from: self.user,
                to: self.marketplace.treasury,
                amount: split.protocol_fee,
            },
        }
    }

    /// What `purchase_access` returns.
    pub open spec fn purchase_result(
        &self,
        access_type: AccessType,
        duration_days: Option<u32>,
        now: i64,
    ) -> Result<Payment, ErrorCode> {
        match self.refusal(access_type, duration_days, now) {
            Some(e) => Err(e),
            None => Ok(self.payment(access_type, duration_days)),
        }
    }

    /// The records after `purchase_access`: unchanged if the purchase is
    /// refused, else with the issued access right in its place.
    pub open spec fn after_purchase(
        &self,
        access_type: AccessType,
        duration_days: Option<u32>,
        now: i64,
    ) -> PurchaseAccess {
        match self.refusal(access_type, duration_days, now) {
            Some(_) => *self,
            None => PurchaseAccess {
                access: Some(self.issued_access(access_type, duration_days, now)),
                ..*self
            },
        }
    }
}

/// Buys an access right to `ctx.model` for `ctx.user` at time `now`.
///
/// Checks, in this order, that the model is active, that a subscription comes
/// with a duration, that price, fee and expiry fit their integer types, and
/// that the user holds no access right to the model yet. If all hold, the
/// access right is put in its place and the payment to make is returned: the
/// caller makes both transfers, and drops the changed records if one of them
/// fails. Otherwise nothing is changed.
pub fn purchase_access(
    ctx: &mut PurchaseAccess,
    access_type: AccessType,
    duration_days: Option<u32>,
    now: i64,
) -> (r: Result<Payment, ErrorCode>)
    ensures
        r == old(ctx).purchase_result(access_type, duration_days, now),
        *final(ctx) == old(ctx).after_purchase(access_type, duration_days, now),
        r matches Ok(payment) ==> payment.creator.amount + payment.treasury.amount == old(
            ctx,
        ).price(access_type, duration_days)->0,
        r is Ok ==> final(ctx).access->0.wf(),
{
    if !ctx.model.is_active {
        return Err(ErrorCode::ModelInactive);
    }
    let price = quote_price(
        ctx.model.inference_price,
        ctx.model.download_price,
        access_type,
        duration_days,
    )?;
    let split = split_payment(price, ctx.marketplace.protocol_fee_bps)?;
    let expires = expires_at(now, duration_days)?;
    if ctx.access.is_some() {
        return Err(ErrorCode::DuplicateAccess);
    }
    ctx.access = Some(
        Access {
            user: ctx.user,
            model: ctx.model_key,
            access_type,
            purchased_at: now,
            expires_at: expires,
            inference_count: 0,
            is_active: true,
            bump: ctx.access_bump,
        },
    );
    Ok(
        Payment {
            creator: Transfer {
                token: ctx.model.payment_token,
                from: ctx.user,
                to: ctx.model.creator,
                amount: split.creator_amount,
            },
            treasury: Transfer {
                token: ctx.model.payment_token,
                from: ctx.user,
                to: ctx.marketplace.treasury,
                amount: split.protocol_fee,
            },
        },
    )
}

} // verus!
