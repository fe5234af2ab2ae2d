use vstd::prelude::*;
use crate::text::utf8_len;
use crate::pubkey::Pubkey;

verus! {

/// A registered trainer. There is one record per principal, addressed by the
/// tag `trainer` and the principal.
///
/// A trainer may open and close the workout instances that name them.
#[derive(Clone, Debug, PartialEq, Eq)]
pub struct Trainer {
    /// The principal that holds the role.
    pub authority: Pubkey,
    /// Name shown on credentials, at most `MAX_DISPLAY_NAME_LEN` bytes of
    /// UTF-8.
    pub display_name: String,
    /// Bump seed of the record's address.
    pub bump: u8,
}

/// What a trainer record holds.
pub struct TrainerView {
    pub authority: Pubkey,
    pub display_name: Seq<char>,
    pub bump: u8,
}

impl View for Trainer {
    type V = TrainerView;

    open spec fn view(&self) -> TrainerView {
        TrainerView { authority: self.authority, display_name: self.display_name@, bump: self.bump }
    }
}

impl Trainer {
    /// Longest display name, in bytes.
    pub const MAX_DISPLAY_NAME_LEN: usize = 64;

    /// Stored size in bytes: discriminator, principal, length-prefixed name,
    /// bump.
    pub const LEN: usize = 8 + 32 + 4 + 64 + 1;

    /// A registered trainer's name fits the record.
    pub open spec fn wf(&self) -> bool {
        utf8_len(self.display_name@) <= Trainer::MAX_DISPLAY_NAME_LEN
    }
}

} // verus!
