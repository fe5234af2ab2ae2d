use vstd::prelude::*;
use crate::errors::WorkoutError;
use crate::events::AdminRemoved;
use crate::pubkey::Pubkey;
use crate::state::{Admin, Config};

verus! {

/// The records that removing an administrator reads and writes.
#[derive(Clone, Copy, Debug, PartialEq, Eq)]
pub struct RemoveAdmin {
    /// The caller.
    pub authority: Pubkey,
    /// The program's configuration.
    pub config: Config,
    /// The administrator record to remove.
    pub admin: Admin,
}

impl RemoveAdmin {
    /// Why the administrator cannot be removed, if they cannot: the caller is
    /// not the super-admin.
    pub open spec fn rejection(&self) -> Option<WorkoutError> {
        if self.authority != self.config.authority {
            Some(WorkoutError::NotConfigAuthority)
        } else {
            None
        }
    }

    /// What is announced when the administrator is removed.
    pub open spec fn removed_event(&self) -> AdminRemoved {
        AdminRemoved { admin: self.admin.authority }
    }
}

/// Decides whether the administrator whose record is given is removed; the
/// record itself is deleted by whoever keeps the records.
///
/// Refused if the caller is not the super-admin.
pub fn remove_admin(ctx: &RemoveAdmin) -> (result: Result<AdminRemoved, WorkoutError>)
    ensures
        result == match ctx.rejection() {
            Some(error) => Err::<AdminRemoved, WorkoutError>(error),
            None => Ok::<AdminRemoved, WorkoutError>(ctx.removed_event()),
        },
{
    if !(ctx.authority == ctx.config.authority) {
        return Err(WorkoutError::NotConfigAuthority);
    }
    Ok(AdminRemoved { admin: ctx.admin.authority })
}

} // verus!
