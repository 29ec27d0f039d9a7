use vstd::prelude::*;

use crate::error::ErrorCode;
use crate::pubkey::Pubkey;
use crate::state::{Access, AccessType, Model, Usage, MAX_HASH_LEN};

verus! {

/// The records and identities that recording an inference works on.
#[derive(Clone, Debug, PartialEq, Eq)]
pub struct RecordInference {
    /// The place of the usage record of `user` on the model under the
    /// fingerprint to record, at the address that `usage_seeds` derive from
    /// the three: empty unless the fingerprint was recorded before.
    pub usage: Option<Usage>,
    pub access: Access,
    pub model: Model,
    /// The address under which `model` is stored.
    pub model_key: Pubkey,
    /// The caller.
    pub user: Pubkey,
    /// The bump of the address of `usage`.
    pub usage_bump: u8,
}

/// The records and identities that recording a download works on.
#[derive(Clone, Debug, PartialEq, Eq)]
pub struct RecordDownload {
    pub access: Access,
    pub model: Model,
    /// The address under which `model` is stored.
    pub model_key: Pubkey,
    /// The caller.
    pub user: Pubkey,
}

/// Why an access right cannot be used by `user` on the model stored under
/// `model_key` at time `now`, if it cannot: it belongs to another user or
/// model, it is switched off, or it has run out.
pub open spec fn access_refusal(access: Access, user: Pubkey, model_key: Pubkey, now: i64) -> Option<
    ErrorCode,
> {
    if access.user != user || access.model != model_key {
        Some(ErrorCode::Unauthorized)
    } else if !access.is_active {
        Some(ErrorCode::AccessInactive)
    } else if access.expires_at matches Some(end) && now >= end {
        Some(ErrorCode::AccessExpired)
    } else {
        None
    }
}

/// Checks that `access` can be used by `user` on the model stored under
/// `model_key` at time `now`.
pub fn check_access(access: &Access, user: &Pubkey, model_key: &Pubkey, now: i64) -> (r: Result<
    (),
    ErrorCode,
>)
    ensures
        match access_refusal(*access, *user, *model_key, now) {
            Some(e) => r == Err::<(), ErrorCode>(e),
            None => r == Ok::<(), ErrorCode>(()),
        },
        r is Ok <==> access.user == *user && access.model == *model_key && access.usable_at(now),
{
    if !(access.user == *user) || !(access.model == *model_key) {
        return Err(ErrorCode::Unauthorized);
    }
    if !access.is_active {
        return Err(ErrorCode::AccessInactive);
    }
    if let Some(end) = access.expires_at {
        if now >= end {
            return Err(ErrorCode::AccessExpired);
        }
    }
    Ok(())
}

impl RecordInference {
    /// Why recording is refused, if it is: the first of the checks that
    /// fails.
    pub open spec fn refusal(&self, inference_hash: Seq<char>, now: i64) -> Option<ErrorCode> {
        if access_refusal(self.access, self.user, self.model_key, now) is Some {
            access_refusal(self.access, self.user, self.model_key, now)
        } else if inference_hash.len() > MAX_HASH_LEN {
            Some(ErrorCode::HashTooLong)
        } else if self.usage is Some {
            Some(ErrorCode::DuplicateUsage)
        } else if self.access.inference_count == u64::MAX || self.model.total_inferences
            == u64::MAX {
            Some(ErrorCode::ArithmeticOverflow)
        } else {
            None
        }
    }

    /// The usage record that an accepted recording writes.
    pub open spec fn recorded_usage(&self, inference_hash: String, now: i64) -> Usage {
        Usage {
            user: self.user,
            model: self.model_key,
            inference_hash,
            timestamp: now,
            bump: self.usage_bump,
        }
    }

    /// What `record_inference` returns.
    pub open spec fn record_result(&self, inference_hash: Seq<char>, now: i64) -> Result<
        (),
        ErrorCode,
    > {
        match self.refusal(inference_hash, now) {
            Some(e) => Err(e),
            None => Ok(()),
        }
    }

    /// The records after `record_inference`: unchanged if the recording is
    /// refused, else with the usage record in its place and one more
    /// inference counted on the access right and on the model.
    pub open spec fn after_record(&self, inference_hash: String, now: i64) -> RecordInference {
        match self.refusal(inference_hash@, now) {
            Some(_) => *self,
            None => RecordInference {
                usage: Some(self.recorded_usage(inference_hash, now)),
                access: Access {
                    inference_count: (self.access.inference_count + 1) as u64,
                    ..self.access
                },
                model: Model {
                    total_inferences: (self.model.total_inferences + 1) as u64,
                    ..self.model
                },
                ..*self
            },
        }
    }
}

/// Records one inference of `ctx.user` on `ctx.model` at time `now`, under
/// the fingerprint `inference_hash`.
///
/// Checks, in this order, that the access right is the caller's and for this
/// model, that it is switched on, that it has not run out, that the
/// fingerprint is within its bound and was not recorded before, and that the
/// two counters can grow. If all hold, the usage record is put in its place
/// and both counters grow by one. Otherwise nothing is changed.
pub fn record_inference(ctx: &mut RecordInference, inference_hash: String, now: i64) -> (r: Result<
    (),
    ErrorCode,
>)
    ensures
        r == old(ctx).record_result(inference_hash@, now),
        *final(ctx) == old(ctx).after_record(inference_hash, now),
        r is Ok ==> old(ctx).access.usable_at(now) && final(ctx).usage->0.wf(),
        old(ctx).access.wf() ==> final(ctx).access.wf(),
        old(ctx).model.wf() ==> final(ctx).model.wf(),
{
    check_access(&ctx.access, &ctx.user, &ctx.model_key, now)?;
    if inference_hash.as_str().unicode_len() > MAX_HASH_LEN {
        return Err(ErrorCode::HashTooLong);
    }
    if ctx.usage.is_some() {
        return Err(ErrorCode::DuplicateUsage);
    }
    let used = match ctx.access.inference_count.checked_add(1) {
        Some(used) => used,
        None => { return Err(ErrorCode::ArithmeticOverflow); },
    };
    let total = match ctx.model.total_inferences.checked_add(1) {
        Some(total) => total,
        None => { return Err(ErrorCode::ArithmeticOverflow); },
    };
    ctx.usage = Some(
        Usage {
            user: ctx.user,
            model: ctx.model_key,
            inference_hash,
            timestamp: now,
            bump: ctx.usage_bump,
        },
    );
    ctx.access.inference_count = used;
    ctx.model.total_inferences = total;
    Ok(())
}

impl RecordDownload {
    /// Why recording is refused, if it is: the first of the checks that
    /// fails.
    pub open spec fn refusal(&self, now: i64) -> Option<ErrorCode> {
        if access_refusal(self.access, self.user, self.model_key, now) is Some {
            access_refusal(self.access, self.user, self.model_key, now)
        } else if self.access.access_type == AccessType::Inference {
            Some(ErrorCode::InvalidAccessType)
        } else if self.model.total_downloads == u64::MAX {
            Some(ErrorCode::ArithmeticOverflow)
        } else {
            None
        }
    }

    /// What `record_download` returns.
    pub open spec fn record_result(&self, now: i64) -> Result<(), ErrorCode> {
        match self.refusal(now) {
            Some(e) => Err(e),
            None => Ok(()),
        }
    }

    /// The records after `record_download`: unchanged if the recording is
    /// refused, else with one more download counted on the model.
    pub open spec fn after_record(&self, now: i64) -> RecordDownload {
        match self.refusal(now) {
            Some(_) => *self,
            None => RecordDownload {
                model: Model {
                    total_downloads: (self.model.total_downloads + 1) as u64,
                    ..self.model
                },
                ..*self
            },
        }
    }
}

/// Records one download of `ctx.model` by `ctx.user` at time `now`.
///
/// Checks, in this order, that the access right is the caller's and for this
/// model, that it is switched on, that it has not run out, that it is a
/// download right or a subscription, and that the model's count of downloads
/// can grow. If all hold, that count grows by one. Otherwise nothing is
/// changed.
pub fn record_download(ctx: &mut RecordDownload, now: i64) -> (r: Result<(), ErrorCode>)
    ensures
        r == old(ctx).record_result(now),
        *final(ctx) == old(ctx).after_record(now),
        r is Ok ==> old(ctx).access.usable_at(now),
        old(ctx).model.wf() ==> final(ctx).model.wf(),
{
    check_access(&ctx.access, &ctx.user, &ctx.model_key, now)?;
    match ctx.access.access_type {
        AccessType::Inference => { return Err(ErrorCode::InvalidAccessType); },
        AccessType::Download => {},
        AccessType::Subscription => {},
    }
    let total = match ctx.model.total_downloads.checked_add(1) {
        Some(total) => total,
        None => { return Err(ErrorCode::ArithmeticOverflow); },
    };
    ctx.model.total_downloads = total;
    Ok(())
}

} // verus!
