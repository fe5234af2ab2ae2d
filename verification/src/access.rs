use vstd::prelude::*;
use crate::pubkey::Pubkey;
use crate::state::Admin;

verus! {

/// The administrator record presented for `caller` shows that `caller` is an
/// administrator: there is one, and it is the caller's own.
pub open spec fn is_admin(caller: Pubkey, admin: Option<Admin>) -> bool {
    admin matches Some(record) && record.authority == caller
}

/// `caller` may open and close the workouts of `trainer`: the caller is an
/// administrator, or is that trainer.
pub open spec fn may_manage(caller: Pubkey, admin: Option<Admin>, trainer: Pubkey) -> bool {
    is_admin(caller, admin) || caller == trainer
}

/// Decides whether the administrator record presented for `caller` is the
/// caller's own.
pub fn check_admin(caller: &Pubkey, admin: &Option<Admin>) -> (yes: bool)
    ensures
        yes == is_admin(*caller, *admin),
{
    match admin {
        Some(record) => record.authority == *caller,
        None => false,
    }
}

/// Decides whether `caller` may open and close the workouts of `trainer`.
pub fn authorize(caller: &Pubkey, admin: &Option<Admin>, trainer: &Pubkey) -> (yes: bool)
    ensures
        yes == may_manage(*caller, *admin, *trainer),
{
    check_admin(caller, admin) || *caller == *trainer
}

} // verus!
