use vstd::prelude::*;
use crate::errors::WorkoutError;
use crate::pubkey::Pubkey;
use crate::state::Config;

verus! {

/// Bump seed of the configuration record.
#[derive(Clone, Copy, Debug, PartialEq, Eq)]
pub struct InitializeConfigBumps {
    pub config: u8,
}

/// The records that initializing the configuration reads and writes.
#[derive(Clone, Copy, Debug, PartialEq, Eq)]
pub struct InitializeConfig {
    /// The caller, who becomes the super-admin.
    pub authority: Pubkey,
    /// The configuration record, if there is one already.
    pub config: Option<Config>,
    pub bumps: InitializeConfigBumps,
}

impl InitializeConfig {
    /// Why the configuration cannot be initialized, if it cannot: it has been
    /// already.
    pub open spec fn rejection(&self) -> Option<WorkoutError> {
        if self.config is Some {
            Some(WorkoutError::AlreadyExists)
        } else {
            None
        }
    }

    /// The records after the configuration was initialized.
    pub open spec fn initialized(&self, collection_mint: Option<Pubkey>) -> InitializeConfig {
        InitializeConfig {
            config: Some(
                Config { authority: self.authority, collection_mint, bump: self.bumps.config },
            ),
            ..*self
        }
    }
}

/// Creates the program's configuration, with the caller as super-admin.
///
/// Refused if the configuration exists already; then it is left as it was.
pub fn initialize_config(ctx: &mut InitializeConfig, collection_mint: Option<Pubkey>) -> (result:
    Result<(), WorkoutError>)
    ensures
        match result {
            Ok(_) => {
                &&& old(ctx).rejection() is None
                &&& *final(ctx) == old(ctx).initialized(collection_mint)
            },
            Err(error) => {
                &&& old(ctx).rejection() == Some(error)
                &&& *final(ctx) == *old(ctx)
            },
        },
{
    if ctx.config.is_some() {
        return Err(WorkoutError::AlreadyExists);
    }
    ctx.config = Some(
        Config { authority: ctx.authority, collection_mint, bump: ctx.bumps.config },
    );
    Ok(())
}

} // verus!
