use vstd::prelude::*;
use crate::address::Address;

verus! {

/// A two-state switch.
#[derive(Clone, Copy, Debug, PartialEq, Eq)]
pub struct SwitchAccount {
    pub state: bool,
}

/// What setting up a switch names.
#[derive(Clone, Copy, Debug, PartialEq, Eq)]
pub struct Initialize {
    /// The switch to set up.
    pub switch_account: SwitchAccount,
    /// The party that pays for the switch.
    pub user: Address,
}

/// What flipping a switch names.
#[derive(Clone, Copy, Debug, PartialEq, Eq)]
pub struct Flip {
    /// The switch to flip.
    pub switch_account: SwitchAccount,
}

/// Sets the switch up: it starts on. Nothing else changes.
pub fn initialize(ctx: &mut Initialize)
    ensures
        final(ctx).switch_account.state,
        final(ctx).user == old(ctx).user,
{
    ctx.switch_account.state = true;
}

/// Flips the switch: on becomes off, off becomes on.
pub fn flip(ctx: &mut Flip)
    ensures
        final(ctx).switch_account.state == !old(ctx).switch_account.state,
{
    if ctx.switch_account.state {
        ctx.switch_account.state = false;
    } else {
        ctx.switch_account.state = true;
    }
}

} // verus!
