use crate::constants::UBI_USERS_PER_ACC;
use crate::error::GraphOfHumanityErrors;
use crate::event::UBISelection;
use crate::selection::{copy_indices, select_indices, selection};
use crate::state::{same_key, DistributionEpoch, Pubkey, Treasury, UBIRandomnessAccount};
use vstd::prelude::*;

verus! {

/// The accounts of the draw of UBI recipients from revealed randomness.
pub struct RevealRandomnessUBI {
    pub cranker: Pubkey,
    /// Address of the account that holds the revealed randomness.
    pub randomness_account_data: Pubkey,
    pub treasury: Treasury,
    pub epoch: DistributionEpoch,
    /// Address of the epoch account.
    pub epoch_key: Pubkey,
    pub ubi_randomness_acc: UBIRandomnessAccount,
}

/// The error with which the draw is refused, if any.
pub open spec fn rejection(pre: RevealRandomnessUBI) -> Option<GraphOfHumanityErrors> {
    if !pre.treasury.distribution_active {
        Some(GraphOfHumanityErrors::NoEpochStarted)
    } else if pre.ubi_randomness_acc.accounts@.len() >= UBI_USERS_PER_ACC {
        Some(GraphOfHumanityErrors::RandomnessFull)
    } else if pre.ubi_randomness_acc.epoch != pre.epoch_key {
        Some(GraphOfHumanityErrors::WrongEpochSelected)
    } else if pre.ubi_randomness_acc.randomness_account != pre.randomness_account_data {
        Some(GraphOfHumanityErrors::WrongRandomnessAccountSelected)
    } else {
        None
    }
}

/// What an accepted draw leaves in its accounts: the list of recipients
/// after the draw, nothing else changed.
pub open spec fn performed(pre: RevealRandomnessUBI, post: RevealRandomnessUBI, revealed: Option<[u8; 32]>) -> bool {
    &&& post.ubi_randomness_acc.accounts@ == selection(
        pre.ubi_randomness_acc.accounts@,
        revealed,
        pre.epoch.distribution_max_user_ind,
        UBI_USERS_PER_ACC,
    )
    &&& post == (RevealRandomnessUBI {
        ubi_randomness_acc: UBIRandomnessAccount {
            accounts: post.ubi_randomness_acc.accounts,
            ..pre.ubi_randomness_acc
        },
        ..pre
    })
}

/// The checks of the instruction, in order: the error it refuses with, if
/// any. The caller reads the revealed value only when this passes.
pub fn check(ctx: &RevealRandomnessUBI) -> (refused: Option<GraphOfHumanityErrors>)
    ensures
        refused == rejection(*ctx),
{
    if !ctx.treasury.distribution_active {
        return Some(GraphOfHumanityErrors::NoEpochStarted);
    }
    if !((ctx.ubi_randomness_acc.accounts.len() as u64) < UBI_USERS_PER_ACC) {
        return Some(GraphOfHumanityErrors::RandomnessFull);
    }
    if !same_key(&ctx.ubi_randomness_acc.epoch, &ctx.epoch_key) {
        return Some(GraphOfHumanityErrors::WrongEpochSelected);
    }
    if !same_key(&ctx.ubi_randomness_acc.randomness_account, &ctx.randomness_account_data) {
        return Some(GraphOfHumanityErrors::WrongRandomnessAccountSelected);
    }
    None
}

/// Draws UBI recipients among the citizens of the epoch from the revealed
/// random value (`None` when the value could not be read).
pub fn handler(ctx: &mut RevealRandomnessUBI, revealed: Option<[u8; 32]>) -> (res: Result<UBISelection, GraphOfHumanityErrors>)
    ensures
        match res {
            Ok(event) => {
                &&& rejection(*old(ctx)) is None
                &&& performed(*old(ctx), *final(ctx), revealed)
                &&& event.accounts@ == final(ctx).ubi_randomness_acc.accounts@
            },
            Err(e) => rejection(*old(ctx)) == Some(e) && *final(ctx) == *old(ctx),
        },
{
    if let Some(refused) = check(ctx) {
        return Err(refused);
    }

    let citizens = ctx.epoch.distribution_max_user_ind;
    let existing = copy_indices(&ctx.ubi_randomness_acc.accounts);
    ctx.ubi_randomness_acc.accounts = select_indices(existing, revealed, citizens, UBI_USERS_PER_ACC);

    Ok(UBISelection { accounts: copy_indices(&ctx.ubi_randomness_acc.accounts) })
}

} // verus!
