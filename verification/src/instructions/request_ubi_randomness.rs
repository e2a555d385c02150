use crate::constants::UBI_USERS_PER_ACC;
use crate::error::GraphOfHumanityErrors;
use crate::instructions::request_randomness_voters::zero_seed;
use crate::state::{is_zero_seed, DistributionEpoch, Pubkey, Treasury, UBIRandomnessAccount};
use vstd::prelude::*;

verus! {

/// The accounts of a request for the randomness that draws UBI recipients.
pub struct RequestRandomnessUBI {
    pub cranker: Pubkey,
    pub treasury: Treasury,
    pub epoch: DistributionEpoch,
    /// Address of the epoch account.
    pub epoch_key: Pubkey,
    pub ubi_randomness_acc: UBIRandomnessAccount,
    pub ubi_randomness_acc_bump: u8,
    /// Address of the randomness request account of the VRF.
    pub randomness_account: Pubkey,
}

/// The error with which the request is refused, if any.
pub open spec fn rejection(pre: RequestRandomnessUBI, force: [u8; 32]) -> Option<GraphOfHumanityErrors> {
    if !pre.treasury.distribution_active {
        Some(GraphOfHumanityErrors::NoEpochStarted)
    } else if pre.ubi_randomness_acc.accounts@.len() >= UBI_USERS_PER_ACC {
        Some(GraphOfHumanityErrors::RandomnessFull)
    } else if zero_seed(force) {
        Some(GraphOfHumanityErrors::NullSeedInvalidForVrf)
    } else {
        None
    }
}

/// Ties the UBI randomness account to the running epoch and the VRF request
/// account, with no recipients drawn yet. The request itself is made by the
/// caller.
pub fn handler(ctx: &mut RequestRandomnessUBI, force: [u8; 32]) -> (res: Result<(), GraphOfHumanityErrors>)
    ensures
        match res {
            Ok(()) => {
                &&& rejection(*old(ctx), force) is None
                &&& final(ctx).ubi_randomness_acc.accounts@ == Seq::<u64>::empty()
                &&& *final(ctx) == (RequestRandomnessUBI {
                    ubi_randomness_acc: UBIRandomnessAccount {
                        bump: old(ctx).ubi_randomness_acc_bump,
                        epoch: old(ctx).epoch_key,
                        randomness_account: old(ctx).randomness_account,
                        accounts: final(ctx).ubi_randomness_acc.accounts,
                    },
                    ..*old(ctx)
                })
            },
            Err(e) => rejection(*old(ctx), force) == Some(e) && *final(ctx) == *old(ctx),
        },
{
    if !ctx.treasury.distribution_active {
        return Err(GraphOfHumanityErrors::NoEpochStarted);
    }
    if !((ctx.ubi_randomness_acc.accounts.len() as u64) < UBI_USERS_PER_ACC) {
        return Err(GraphOfHumanityErrors::RandomnessFull);
    }
    if is_zero_seed(&force) {
        return Err(GraphOfHumanityErrors::NullSeedInvalidForVrf);
    }

    ctx.ubi_randomness_acc.bump = ctx.ubi_randomness_acc_bump;
    ctx.ubi_randomness_acc.epoch = ctx.epoch_key;
    ctx.ubi_randomness_acc.randomness_account = ctx.randomness_account;
    ctx.ubi_randomness_acc.accounts = Vec::new();

    Ok(())
}

} // verus!
