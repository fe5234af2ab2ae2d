use vstd::prelude::*;
use crate::pubkey::Pubkey;

verus! {

/// Proof that one user attended one workout instance. There is one record
/// per pair, addressed by the tag `attendance`, the instance and the user.
///
/// A record that has not been claimed yet is blank. `claimed` goes from
/// false to true once and stays true.
#[derive(Clone, Copy, Debug, PartialEq, Eq)]
pub struct Attendance {
    /// The workout instance attended.
    pub instance: Pubkey,
    /// The user who attended.
    pub user: Pubkey,
    /// Whether the user has claimed the credential.
    pub claimed: bool,
    /// The credential issued for the claim; all zero until one is minted.
    pub nft_mint: Pubkey,
    /// Bump seed of the record's address.
    pub bump: u8,
}

impl Attendance {
    /// Stored size in bytes: discriminator, instance, user, flag, credential,
    /// bump.
    pub const LEN: usize = 8 + 32 + 32 + 1 + 32 + 1;

    /// The blank record, as it is before the first claim.
    pub open spec fn spec_default() -> Attendance {
        Attendance {
            instance: Pubkey::spec_default(),
            user: Pubkey::spec_default(),
            claimed: false,
            nft_mint: Pubkey::spec_default(),
            bump: 0,
        }
    }

    /// The record of an accepted claim by `user` for the instance at
    /// `instance`. No credential is recorded yet.
    pub open spec fn claimed_by(instance: Pubkey, user: Pubkey, bump: u8) -> Attendance {
        Attendance { instance, user, claimed: true, nft_mint: Pubkey::spec_default(), bump }
    }
}

impl Default for Attendance {
    fn default() -> (record: Attendance)
        ensures
            record == Attendance::spec_default(),
    {
        Attendance {
            instance: Pubkey::default(),
            user: Pubkey::default(),
            claimed: false,
            nft_mint: Pubkey::default(),
            bump: 0,
        }
    }
}

} // verus!
