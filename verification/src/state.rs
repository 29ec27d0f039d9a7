use vstd::prelude::*;

use crate::pubkey::Pubkey;

verus! {

/// Longest model name, in characters.
pub const MAX_NAME_LEN: usize = 100;

/// Longest model description, in characters.
pub const MAX_DESCRIPTION_LEN: usize = 500;

/// Longest content hash or usage fingerprint, in characters.
pub const MAX_HASH_LEN: usize = 64;

/// Longest storage location, in characters.
pub const MAX_URI_LEN: usize = 200;

/// Highest fee rate: one whole, in basis points.
pub const MAX_FEE_BPS: u64 = 10000;

/// What an access right allows.
#[derive(Clone, Copy, Debug, PartialEq, Eq, Structural)]
pub enum AccessType {
    Inference,
    Download,
    Subscription,
}

/// The kind of value a model is paid in.
#[derive(Clone, Copy, Debug, PartialEq, Eq, Structural)]
pub enum PaymentToken {
    Sol,
    SplToken,
}

/// The marketplace's single configuration record.
#[derive(Clone, Copy, Debug, PartialEq, Eq)]
pub struct Marketplace {
    pub authority: Pubkey,
    pub treasury: Pubkey,
    pub protocol_fee_bps: u64,
    pub total_models: u64,
    pub bump: u8,
}

impl Marketplace {
    /// Bytes that a stored configuration record takes.
    pub const LEN: usize = 8 + 32 + 32 + 8 + 8 + 1;

    /// The fee rate is at most one whole.
    pub open spec fn wf(&self) -> bool {
        self.protocol_fee_bps <= MAX_FEE_BPS
    }
}

/// A listed model.
#[derive(Clone, Debug, PartialEq, Eq)]
pub struct Model {
    pub creator: Pubkey,
    pub name: String,
    pub description: String,
    pub model_hash: String,
    pub storage_uri: String,
    pub model_size: u64,
    pub inference_price: u64,
    pub download_price: u64,
    pub payment_token: PaymentToken,
    pub total_inferences: u64,
    pub total_downloads: u64,
    pub total_revenue: u64,
    pub is_active: bool,
    pub created_at: i64,
    pub model_id: u64,
    pub bump: u8,
}

impl Model {
    /// Bytes that a stored model record takes.
    pub const LEN: usize = 8 + 32 + (4 + 100) + (4 + 500) + (4 + 64) + (4 + 200) + 8 + 8 + 8 + 1 + 8
        + 8 + 8 + 1 + 8 + 8 + 1;

    /// Every text is within its bound, counted in characters.
    pub open spec fn wf(&self) -> bool {
        &&& self.name@.len() <= MAX_NAME_LEN
        &&& self.description@.len() <= MAX_DESCRIPTION_LEN
        &&& self.model_hash@.len() <= MAX_HASH_LEN
        &&& self.storage_uri@.len() <= MAX_URI_LEN
    }
}

/// A user's right to use one model.
#[derive(Clone, Copy, Debug, PartialEq, Eq)]
pub struct Access {
    pub user: Pubkey,
    pub model: Pubkey,
    pub access_type: AccessType,
    pub purchased_at: i64,
    pub expires_at: Option<i64>,
    pub inference_count: u64,
    pub is_active: bool,
    pub bump: u8,
}

impl Access {
    /// Bytes that a stored access record takes.
    pub const LEN: usize = 8 + 32 + 32 + 1 + 8 + (1 + 8) + 8 + 1 + 1;

    /// An expiry lies a whole number of days after the purchase, and a
    /// subscription has one.
    pub open spec fn wf(&self) -> bool {
        &&& self.access_type == AccessType::Subscription ==> self.expires_at is Some
        &&& self.expires_at matches Some(end) ==> exists|days: u32|
            end == self.purchased_at + #[trigger] seconds_in_days(days)
    }

    /// Whether the right can be used at time `now`: it is switched on and,
    /// if it has an expiry, `now` is before it.
    pub open spec fn usable_at(&self, now: i64) -> bool {
        &&& self.is_active
        &&& self.expires_at matches Some(end) ==> now < end
    }
}

/// Seconds in `days` whole days.
pub open spec fn seconds_in_days(days: u32) -> int {
    days * 86400
}

/// One recorded inference.
#[derive(Clone, Debug, PartialEq, Eq)]
pub struct Usage {
    pub user: Pubkey,
    pub model: Pubkey,
    pub inference_hash: String,
    pub timestamp: i64,
    pub bump: u8,
}

impl Usage {
    /// Bytes that a stored usage record takes.
    pub const LEN: usize = 8 + 32 + 32 + (4 + 64) + 8 + 1;

    /// The fingerprint is within its bound, counted in characters.
    pub open spec fn wf(&self) -> bool {
        self.inference_hash@.len() <= MAX_HASH_LEN
    }
}

} // verus!
