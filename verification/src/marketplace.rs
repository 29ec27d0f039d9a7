use vstd::prelude::*;

use crate::error::ErrorCode;
use crate::pubkey::Pubkey;
use crate::state::{Marketplace, MAX_FEE_BPS};

verus! {

/// The records and identities that setting up the marketplace works on.
#[derive(Clone, Copy, Debug, PartialEq, Eq)]
pub struct InitializeMarketplace {
    /// The place of the configuration record, at the address that
    /// `marketplace_seeds()` derive: empty before it is set up.
    pub marketplace: Option<Marketplace>,
    /// The identity that receives the protocol fees.
    pub treasury: Pubkey,
    /// The caller, who becomes the marketplace's owner.
    pub authority: Pubkey,
    /// The bump of the address of `marketplace`.
    pub marketplace_bump: u8,
}

impl InitializeMarketplace {
    /// Why setting up is refused, if it is: the first of the checks that
    /// fails.
    pub open spec fn refusal(&self, protocol_fee_bps: u64) -> Option<ErrorCode> {
        if self.marketplace is Some {
            Some(ErrorCode::AlreadyInitialized)
        } else if protocol_fee_bps > MAX_FEE_BPS {
            Some(ErrorCode::InvalidFee)
        } else {
            None
        }
    }

    /// The configuration that an accepted set-up writes.
    pub open spec fn initial_marketplace(&self, protocol_fee_bps: u64) -> Marketplace {
        Marketplace {
            authority: self.authority,
            treasury: self.treasury,
            protocol_fee_bps,
            total_models: 0,
            bump: self.marketplace_bump,
        }
    }

    /// What `initialize_marketplace` returns.
    pub open spec fn initialize_result(&self, protocol_fee_bps: u64) -> Result<(), ErrorCode> {
        match self.refusal(protocol_fee_bps) {
            Some(e) => Err(e),
            None => Ok(()),
        }
    }

    /// The records after `initialize_marketplace`.
    pub open spec fn after_initialize(&self, protocol_fee_bps: u64) -> InitializeMarketplace {
        match self.refusal(protocol_fee_bps) {
            Some(_) => *self,
            None => InitializeMarketplace {
                marketplace: Some(self.initial_marketplace(protocol_fee_bps)),
                ..*self
            },
        }
    }
}

/// Sets up the marketplace with `ctx.authority` as owner, `ctx.treasury` as
/// receiver of fees, the given fee rate and no models.
///
/// Fails with `AlreadyInitialized` if the marketplace is set up already, else
/// with `InvalidFee` if the rate is above `MAX_FEE_BPS`; then nothing is
/// changed.
pub fn initialize_marketplace(ctx: &mut InitializeMarketplace, protocol_fee_bps: u64) -> (r: Result<
    (),
    ErrorCode,
>)
    ensures
        r == old(ctx).initialize_result(protocol_fee_bps),
        *final(ctx) == old(ctx).after_initialize(protocol_fee_bps),
        r is Ok ==> final(ctx).marketplace->0.wf(),
{
    if ctx.marketplace.is_some() {
        return Err(ErrorCode::AlreadyInitialized);
    }
    if protocol_fee_bps > MAX_FEE_BPS {
        return Err(ErrorCode::InvalidFee);
    }
    ctx.marketplace = Some(
        Marketplace {
            authority: ctx.authority,
            treasury: ctx.treasury,
            protocol_fee_bps,
            total_models: 0,
            bump: ctx.marketplace_bump,
        },
    );
    Ok(())
}

} // verus!
