use vstd::prelude::*;
use crate::errors::WorkoutError;
use crate::events::AdminAdded;
use crate::pubkey::Pubkey;
use crate::state::{Admin, Config};

verus! {

/// Bump seed of the record that adding an administrator creates.
#[derive(Clone, Copy, Debug, PartialEq, Eq)]
pub struct AddAdminBumps {
    pub admin: u8,
}

/// The records that adding an administrator reads and writes.
#[derive(Clone, Copy, Debug, PartialEq, Eq)]
pub struct AddAdmin {
    /// The caller.
    pub authority: Pubkey,
    /// The program's configuration.
    pub config: Config,
    /// The principal to make an administrator.
    pub new_admin: Pubkey,
    /// The administrator record of that principal, if there is one already.
    pub admin: Option<Admin>,
    pub bumps: AddAdminBumps,
}

impl AddAdmin {
    /// Why the administrator cannot be added, if they cannot. The checks come
    /// in this order: the caller is not the super-admin; the principal is an
    /// administrator already.
    pub open spec fn rejection(&self) -> Option<WorkoutError> {
        if self.authority != self.config.authority {
            Some(WorkoutError::NotConfigAuthority)
        } else if self.admin is Some {
            Some(WorkoutError::AlreadyExists)
        } else {
            None
        }
    }

    /// The records after the administrator was added.
    pub open spec fn added(&self) -> AddAdmin {
        AddAdmin {
            admin: Some(Admin { authority: self.new_admin, bump: self.bumps.admin }),
            ..*self
        }
    }
}

/// Makes the principal an administrator.
///
/// Refused if the caller is not the super-admin, or if the principal is an
/// administrator already. A refusal leaves every record as it was.
pub fn add_admin(ctx: &mut AddAdmin) -> (result: Result<AdminAdded, WorkoutError>)
    ensures
        match result {
            Ok(event) => {
                &&& old(ctx).rejection() is None
                &&& *final(ctx) == old(ctx).added()
                &&& event == (AdminAdded { admin: old(ctx).new_admin })
            },
            Err(error) => {
                &&& old(ctx).rejection() == Some(error)
                &&& *final(ctx) == *old(ctx)
            },
        },
{
    if !(ctx.authority == ctx.config.authority) {
        return Err(WorkoutError::NotConfigAuthority);
    }
    if ctx.admin.is_some() {
        return Err(WorkoutError::AlreadyExists);
    }
    ctx.admin = Some(Admin { authority: ctx.new_admin, bump: ctx.bumps.admin });
    Ok(AdminAdded { admin: ctx.new_admin })
}

} // verus!
