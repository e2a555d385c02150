use crate::constants::UBI_AMOUNT;
use crate::error::GraphOfHumanityErrors;
use crate::event::UBIDistributed;
use crate::selection::contains_index;
use crate::state::{same_key, DistributionEpoch, Member, Pubkey, Treasury, UBIRandomnessAccount};
use vstd::prelude::*;

verus! {

/// The accounts of a citizen's claim of UBI in the running epoch.
pub struct ClaimUBI {
    pub claimer: Pubkey,
    pub claimer_member_acc: Member,
    pub treasury: Treasury,
    pub epoch: DistributionEpoch,
    /// Address of the epoch account.
    pub epoch_key: Pubkey,
    pub ubi_randomness_acc: UBIRandomnessAccount,
}

/// The checks that come before the claimer's citizen index is read.
pub open spec fn early_rejection(pre: ClaimUBI) -> Option<GraphOfHumanityErrors> {
    if !pre.claimer_member_acc.citizen {
        Some(GraphOfHumanityErrors::CanNotClaimUBI)
    } else if !pre.treasury.distribution_active {
        Some(GraphOfHumanityErrors::NoEpochStarted)
    } else if pre.ubi_randomness_acc.epoch != pre.epoch_key {
        Some(GraphOfHumanityErrors::WrongEpochSelected)
    } else {
        None
    }
}

/// The error with which the claim is refused, if any: only a citizen drawn
/// for the running epoch claims.
pub open spec fn rejection(pre: ClaimUBI) -> Option<GraphOfHumanityErrors> {
    if early_rejection(pre) is Some {
        early_rejection(pre)
    } else if !pre.ubi_randomness_acc.accounts@.contains(pre.claimer_member_acc.citizen_index.unwrap()) {
        Some(GraphOfHumanityErrors::CanNotClaimUBIIfNotChoosen)
    } else {
        None
    }
}

/// Whether this claim is the last one that the epoch pays.
pub open spec fn closes_epoch(pre: ClaimUBI) -> bool {
    pre.epoch.num_of_users_distributed + 1 == pre.epoch.num_of_users_to_distribute
}

/// What a paid claim leaves in its accounts: one more recipient paid, and
/// the epoch closed after its last recipient.
pub open spec fn performed(pre: ClaimUBI, post: ClaimUBI) -> bool {
    post == (ClaimUBI {
        epoch: DistributionEpoch {
            num_of_users_distributed: (pre.epoch.num_of_users_distributed + 1) as u64,
            ..pre.epoch
        },
        treasury: if closes_epoch(pre) {
            Treasury {
                distributions: (pre.treasury.distributions + 1) as u64,
                distribution_active: false,
                ..pre.treasury
            }
        } else {
            pre.treasury
        },
        ..pre
    })
}

/// Whether the instruction aborts: the claimer passes the first checks but
/// has no citizen index, or a counter of the epoch or treasury cannot grow.
pub open spec fn aborts(pre: ClaimUBI) -> bool {
    ||| early_rejection(pre) is None && pre.claimer_member_acc.citizen_index is None
    ||| rejection(pre) is None && pre.epoch.num_of_users_distributed == u64::MAX
    ||| rejection(pre) is None && closes_epoch(pre) && pre.treasury.distributions == u64::MAX
}

/// Tests `aborts`, for callers that must refuse such input beforehand.
pub fn would_abort(ctx: &ClaimUBI) -> (abort: bool)
    ensures
        abort == aborts(*ctx),
{
    if !ctx.claimer_member_acc.citizen || !ctx.treasury.distribution_active || !same_key(
        &ctx.ubi_randomness_acc.epoch,
        &ctx.epoch_key,
    ) {
        return false;
    }
    let citizen_index = match ctx.claimer_member_acc.citizen_index {
        Some(i) => i,
        None => {
            return true;
        },
    };
    if !contains_index(&ctx.ubi_randomness_acc.accounts, citizen_index) {
        return false;
    }
    if ctx.epoch.num_of_users_distributed == u64::MAX {
        return true;
    }
    ctx.epoch.num_of_users_distributed + 1 == ctx.epoch.num_of_users_to_distribute && ctx.treasury.distributions
        == u64::MAX
}

/// Pays `UBI_AMOUNT` to a citizen drawn for the running epoch and counts the
/// payment in the epoch.
pub fn handler(ctx: &mut ClaimUBI) -> (res: Result<(UBIDistributed, u64), GraphOfHumanityErrors>)
    requires
        !aborts(*old(ctx)),
    ensures
        match res {
            Ok((event, paid)) => {
                &&& rejection(*old(ctx)) is None
                &&& performed(*old(ctx), *final(ctx))
                &&& event == (UBIDistributed { account: old(ctx).claimer })
                &&& paid == UBI_AMOUNT
            },
            Err(e) => rejection(*old(ctx)) == Some(e) && *final(ctx) == *old(ctx),
        },
{
    if !ctx.claimer_member_acc.citizen {
        return Err(GraphOfHumanityErrors::CanNotClaimUBI);
    }
    if !ctx.treasury.distribution_active {
        return Err(GraphOfHumanityErrors::NoEpochStarted);
    }
    if !same_key(&ctx.ubi_randomness_acc.epoch, &ctx.epoch_key) {
        return Err(GraphOfHumanityErrors::WrongEpochSelected);
    }
    let citizen_index = ctx.claimer_member_acc.citizen_index.unwrap();
    if !contains_index(&ctx.ubi_randomness_acc.accounts, citizen_index) {
        return Err(GraphOfHumanityErrors::CanNotClaimUBIIfNotChoosen);
    }

    ctx.epoch.num_of_users_distributed = ctx.epoch.num_of_users_distributed + 1;
    if ctx.epoch.num_of_users_distributed == ctx.epoch.num_of_users_to_distribute {
        ctx.treasury.distributions = ctx.treasury.distributions + 1;
        ctx.treasury.distribution_active = false;
    }

    Ok((UBIDistributed { account: ctx.claimer }, UBI_AMOUNT))
}

} // verus!
