use vstd::prelude::*;
use crate::pubkey::Pubkey;

verus! {

/// The program's one configuration record, addressed by the tag `config`.
#[derive(Clone, Copy, Debug, PartialEq, Eq)]
pub struct Config {
    /// The super-admin, who alone adds and removes administrators.
    pub authority: Pubkey,
    /// A collection under which all credentials are grouped, if any.
    pub collection_mint: Option<Pubkey>,
    /// Bump seed of the record's address.
    pub bump: u8,
}

impl Config {
    /// Stored size in bytes: discriminator, super-admin, optional collection,
    /// bump.
    pub const LEN: usize = 8 + 32 + 33 + 1;
}

} // verus!
