use crate::error::GraphOfHumanityErrors;
use crate::event::DistributionEpochStarted;
use crate::state::{DistributionEpoch, Pubkey, Treasury};
use vstd::prelude::*;

verus! {

/// The accounts of the start of a UBI epoch.
pub struct StartDistribution {
    pub cranker: Pubkey,
    pub treasury: Treasury,
    /// The new epoch account.
    pub epoch: DistributionEpoch,
    pub epoch_bump: u8,
}

/// The error with which the start is refused, if any. `recipients` is the
/// number of citizens that the treasury's balance pays, or `None` when the
/// balance is too low for a round.
pub open spec fn rejection(pre: StartDistribution, recipients: Option<u64>) -> Option<GraphOfHumanityErrors> {
    if pre.treasury.distribution_active {
        Some(GraphOfHumanityErrors::CanNotStartDistributionEpochWhenOneIsAlreadyRunning)
    } else if recipients is None {
        Some(GraphOfHumanityErrors::NotEnoughFundsToStartEpoch)
    } else {
        None
    }
}

/// What an accepted start leaves in its accounts: a fresh epoch over all
/// current citizens, and the treasury marked as paying out.
pub open spec fn performed(pre: StartDistribution, post: StartDistribution, recipients: u64) -> bool {
    post == (StartDistribution {
        epoch: DistributionEpoch {
            bump: pre.epoch_bump,
            num_of_users_to_distribute: recipients,
            num_of_users_distributed: 0,
            distribution_max_user_ind: pre.treasury.num_of_citizens,
        },
        treasury: Treasury { distribution_active: true, ..pre.treasury },
        ..pre
    })
}

/// Whether an epoch may start now: none may be running.
pub fn no_epoch_running(treasury: &Treasury) -> (free: bool)
    ensures
        free == !treasury.distribution_active,
{
    !treasury.distribution_active
}

/// Opens a UBI epoch that pays `recipients` citizens out of all current
/// citizens, unless one is running or the treasury cannot fund one.
pub fn handler(ctx: &mut StartDistribution, recipients: Option<u64>, now: i64) -> (res: Result<DistributionEpochStarted, GraphOfHumanityErrors>)
    ensures
        match res {
            Ok(event) => {
                &&& rejection(*old(ctx), recipients) is None
                &&& performed(*old(ctx), *final(ctx), recipients.unwrap())
                &&& event == (DistributionEpochStarted {
                    num_of_users_to_distribute: recipients.unwrap(),
                    started: now,
                })
            },
            Err(e) => rejection(*old(ctx), recipients) == Some(e) && *final(ctx) == *old(ctx),
        },
{
    if !no_epoch_running(&ctx.treasury) {
        return Err(GraphOfHumanityErrors::CanNotStartDistributionEpochWhenOneIsAlreadyRunning);
    }
    let num_of_users_to_distribute = match recipients {
        Some(n) => n,
        None => {
            return Err(GraphOfHumanityErrors::NotEnoughFundsToStartEpoch);
        },
    };

    ctx.epoch.bump = ctx.epoch_bump;
    ctx.epoch.num_of_users_distributed = 0;
    ctx.epoch.num_of_users_to_distribute = num_of_users_to_distribute;
    ctx.epoch.distribution_max_user_ind = ctx.treasury.num_of_citizens;

    ctx.treasury.distribution_active = true;

    Ok(DistributionEpochStarted { num_of_users_to_distribute, started: now })
}

} // verus!
