//! Setting up the registry.
use vstd::prelude::*;
use crate::identity::Identity;
use crate::state::BountyManager;

verus! {

/// What setting up the registry needs. That it happens once is up to the ledger,
/// which refuses to create the registry's record a second time.
pub struct Initialize {
    /// The authority who sets the registry up.
    pub authority: Identity,
    /// Address-derivation nonce of the registry's record.
    pub bump: u8,
}

/// The registry as it is first set up: ids start at 1.
pub fn handler(ctx: &Initialize) -> (r: BountyManager)
    ensures
        r.authority == ctx.authority,
        r.next_bounty_id == 1,
        r.bump == ctx.bump,
{
    BountyManager { authority: ctx.authority, next_bounty_id: 1, bump: ctx.bump }
}

} // verus!
