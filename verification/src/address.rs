use vstd::prelude::*;
use crate::pubkey::Pubkey;
use crate::seeds::{
    admin_seeds, attendance_seeds, config_seeds, instance_seeds, monthly_seeds, schedule_seeds,
    seeds_view, trainer_seeds, RecordId,
};
use crate::text::utf8_len;

verus! {

/// Most bytes that one seed can hold.
pub const MAX_SEED_LEN: usize = 32;

/// The address that the program `program_id` derives from `seeds`, together
/// with the bump seed that was added to the seeds to arrive at it; `None`
/// where the program derives no address from them.
///
/// The address is computed outside this library; see
/// [`find_program_address`].
pub uninterp spec fn program_address(seeds: Seq<Seq<u8>>, program_id: Seq<u8>) -> Option<
    (Seq<u8>, u8),
>;

/// What was found, by its bytes.
pub open spec fn found_view(found: Option<(Pubkey, u8)>) -> Option<(Seq<u8>, u8)> {
    match found {
        Some((address, bump)) => Some((address@, bump)),
        None => None,
    }
}

/// Derives the address with `Pubkey::try_find_program_address` of
/// `anchor_lang::prelude`, which tries the bump seeds from 255 downwards.
///
/// Trusted: the contract names the result `program_address` of the seeds and
/// the program, and claims one thing more, which the outside function's
/// source shows: with a seed longer than `MAX_SEED_LEN` bytes, nothing is
/// found.
#[verifier::external_body]
fn find_program_address(seeds: &Vec<Vec<u8>>, program_id: &Pubkey) -> (found: Option<
    (Pubkey, u8),
>)
    ensures
        found_view(found) == program_address(seeds_view(*seeds), program_id@),
        (exists|i: int| 0 <= i < seeds@.len() && seeds@[i]@.len() > MAX_SEED_LEN) ==> found
            is None,
{
    let slices: Vec<&[u8]> = seeds.iter().map(|seed| seed.as_slice()).collect();
    let program = anchor_lang::prelude::Pubkey::new_from_array(program_id.bytes);
    match anchor_lang::prelude::Pubkey::try_find_program_address(&slices, &program) {
        Some((address, bump)) => Some((Pubkey { bytes: address.to_bytes() }, bump)),
        None => None,
    }
}

/// Address and bump seed of the program's configuration.
pub fn config_address(program_id: &Pubkey) -> (found: Option<(Pubkey, u8)>)
    ensures
        found_view(found) == program_address(RecordId::Config.seeds(), program_id@),
{
    find_program_address(&config_seeds(), program_id)
}

/// Address and bump seed of the administrator record of a principal.
pub fn admin_address(program_id: &Pubkey, admin: &Pubkey) -> (found: Option<(Pubkey, u8)>)
    ensures
        found_view(found) == program_address(
            (RecordId::Admin { admin: *admin }).seeds(),
            program_id@,
        ),
{
    find_program_address(&admin_seeds(admin), program_id)
}

/// Address and bump seed of the trainer record of a principal.
pub fn trainer_address(program_id: &Pubkey, trainer: &Pubkey) -> (found: Option<(Pubkey, u8)>)
    ensures
        found_view(found) == program_address(
            (RecordId::Trainer { trainer: *trainer }).seeds(),
            program_id@,
        ),
{
    find_program_address(&trainer_seeds(trainer), program_id)
}

/// Address and bump seed of the schedule with the given id. An id of more
/// than `MAX_SEED_LEN` bytes has no address.
pub fn schedule_address(program_id: &Pubkey, schedule_id: &str) -> (found: Option<(Pubkey, u8)>)
    ensures
        found_view(found) == program_address(
            (RecordId::Schedule { schedule_id: schedule_id@ }).seeds(),
            program_id@,
        ),
        utf8_len(schedule_id@) > MAX_SEED_LEN ==> found is None,
{
    let seeds = schedule_seeds(schedule_id);
    proof {
        if utf8_len(schedule_id@) > MAX_SEED_LEN {
            let id = RecordId::Schedule { schedule_id: schedule_id@ };
            assert(seeds_view(seeds).len() == id.seeds().len());
            assert(seeds@.len() == 2);
            assert(seeds_view(seeds)[1] == seeds@[1]@);
            assert(seeds@[1]@ == id.seeds()[1]);
            assert(seeds@[1]@.len() > MAX_SEED_LEN);
        }
    }
    find_program_address(&seeds, program_id)
}

/// Address and bump seed of the workout instance of a trainer at a date, hour
/// and minute.
pub fn instance_address(
    program_id: &Pubkey,
    trainer: &Pubkey,
    yyyymmdd: u32,
    hour: u8,
    minute: u8,
) -> (found: Option<(Pubkey, u8)>)
    ensures
        found_view(found) == program_address(
            (RecordId::Instance { trainer: *trainer, yyyymmdd, hour, minute }).seeds(),
            program_id@,
        ),
{
    find_program_address(&instance_seeds(trainer, yyyymmdd, hour, minute), program_id)
}

/// Address and bump seed of the attendance record of a user for the instance
/// at an address.
pub fn attendance_address(program_id: &Pubkey, instance: &Pubkey, user: &Pubkey) -> (found:
    Option<(Pubkey, u8)>)
    ensures
        found_view(found) == program_address(
            (RecordId::Attendance { instance: *instance, user: *user }).seeds(),
            program_id@,
        ),
{
    find_program_address(&attendance_seeds(instance, user), program_id)
}

/// Address and bump seed of the counter of a user for a month.
pub fn monthly_address(program_id: &Pubkey, user: &Pubkey, yyyymm: u32) -> (found: Option<
    (Pubkey, u8),
>)
    ensures
        found_view(found) == program_address(
            (RecordId::Monthly { user: *user, yyyymm }).seeds(),
            program_id@,
        ),
{
    find_program_address(&monthly_seeds(user, yyyymm), program_id)
}

} // verus!
