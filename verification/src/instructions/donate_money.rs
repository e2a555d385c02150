use crate::event::MoneyDonated;
use crate::state::Pubkey;
use vstd::prelude::*;

verus! {

/// The accounts of a donation to the treasury.
pub struct DonateMoney {
    pub doner: Pubkey,
}

/// A donation moves `amount` from the donor to the treasury; this returns
/// the announcement and the amount to transfer.
pub fn handler(ctx: &DonateMoney, amount: u64) -> (donation: (MoneyDonated, u64))
    ensures
        donation.0 == (MoneyDonated { doner: ctx.doner, amount }),
        donation.1 == amount,
{
    (MoneyDonated { doner: ctx.doner, amount }, amount)
}

} // verus!
