//! Rules of a marketplace for AI models: creators list priced models, users
//! buy access rights to them, and each use of a right is recorded. Every
//! operation works on the records it is handed and either applies in full or
//! changes nothing.

pub mod address;
pub mod error;
pub mod laws;
pub mod marketplace;
pub mod pricing;
pub mod pubkey;
pub mod purchase;
pub mod registry;
pub mod state;
pub mod usage;

pub use crate::error::ErrorCode;
pub use crate::marketplace::{initialize_marketplace, InitializeMarketplace};
pub use crate::pubkey::Pubkey;
pub use crate::purchase::{purchase_access, Payment, PurchaseAccess, Transfer};
pub use crate::registry::{
    register_model, update_model_pricing, update_model_status, withdraw_earnings, RegisterModel,
    UpdateModelPricing, UpdateModelStatus, WithdrawEarnings,
};
pub use crate::state::{Access, AccessType, Marketplace, Model, PaymentToken, Usage};
pub use crate::usage::{record_download, record_inference, RecordDownload, RecordInference};
