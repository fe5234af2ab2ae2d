use vstd::prelude::*;
use crate::pubkey::Pubkey;

verus! {

/// A registered administrator. There is one record per principal, addressed
/// by the tag `admin` and the principal.
///
/// An administrator may register trainers, set schedules, and open and close
/// workout instances.
#[derive(Clone, Copy, Debug, PartialEq, Eq)]
pub struct Admin {
    /// The principal that holds the role.
    pub authority: Pubkey,
    /// Bump seed of the record's address.
    pub bump: u8,
}

impl Admin {
    /// Stored size in bytes: discriminator, principal, bump.
    pub const LEN: usize = 8 + 32 + 1;
}

} // verus!
