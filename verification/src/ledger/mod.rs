use vstd::prelude::*;

pub mod consistency;
pub mod laws;
pub mod records;

use crate::access::{is_admin, may_manage};
use crate::errors::WorkoutError;
use crate::instructions::{opened_instance, opening_rejection, ClaimNftBumps};
use crate::pubkey::Pubkey;
use crate::state::{Admin, Attendance, MonthlyCounter, WorkoutInstance, WorkoutInstanceView};
use crate::text::utf8_len;

verus! {

/// A request to open a workout instance.
pub struct OpenRequest {
    /// The caller.
    pub authority: Pubkey,
    /// The administrator record found for the caller, if there is one.
    pub admin: Option<Admin>,
    /// The trainer who will lead the workout.
    pub trainer: Pubkey,
    /// Address of the instance, derived from the trainer, the date, the hour
    /// and the minute.
    pub instance_key: Pubkey,
    pub yyyymmdd: u32,
    pub hour: u8,
    pub minute: u8,
    pub window_start_ts: i64,
    pub window_end_ts: i64,
    pub secret_hash: Seq<u8>,
    pub metadata_uri: Seq<char>,
    /// Time of the request.
    pub now: i64,
    pub bump: u8,
}

/// A request to close a workout instance.
pub struct CloseRequest {
    /// The caller.
    pub authority: Pubkey,
    /// The administrator record found for the caller, if there is one.
    pub admin: Option<Admin>,
    /// Address of the instance.
    pub instance_key: Pubkey,
}

/// A request to claim attendance of a workout instance.
pub struct ClaimRequest {
    /// The user claiming.
    pub user: Pubkey,
    /// Address of the instance.
    pub instance_key: Pubkey,
    /// Time of the request.
    pub now: i64,
    /// Digest of the secret revealed.
    pub digest: Seq<u8>,
    pub bumps: ClaimNftBumps,
}

/// One request to the ledger.
pub enum Operation {
    Open(OpenRequest),
    Close(CloseRequest),
    Claim(ClaimRequest),
}

/// All the records of the attendance protocol, each kind under the key that
/// its address is derived from: instances by address, attendance records by
/// instance and user, counters by user and month.
///
/// Each request is carried out in one step on the records it names, so any
/// number of requests made at the same time act as if made one after the
/// other, in some order.
pub struct Ledger {
    pub instances: Map<Pubkey, WorkoutInstanceView>,
    pub attendance: Map<(Pubkey, Pubkey), Attendance>,
    pub counters: Map<(Pubkey, u32), MonthlyCounter>,
}

impl Ledger {
    /// The ledger that holds no record.
    pub open spec fn empty() -> Ledger {
        Ledger { instances: Map::empty(), attendance: Map::empty(), counters: Map::empty() }
    }

    /// The attendance record of the user for the instance; blank if none has
    /// been written.
    pub open spec fn attendance_of(self, instance: Pubkey, user: Pubkey) -> Attendance {
        if self.attendance.contains_key((instance, user)) {
            self.attendance[(instance, user)]
        } else {
            Attendance::spec_default()
        }
    }

    /// The counter of the user for the month; blank if none has been written.
    pub open spec fn counter_of(self, user: Pubkey, yyyymm: u32) -> MonthlyCounter {
        if self.counters.contains_key((user, yyyymm)) {
            self.counters[(user, yyyymm)]
        } else {
            MonthlyCounter::spec_default()
        }
    }

    /// Whether the user has claimed the instance.
    pub open spec fn has_claimed(self, instance: Pubkey, user: Pubkey) -> bool {
        self.attendance_of(instance, user).claimed
    }

    /// The user's count for the month.
    pub open spec fn count(self, user: Pubkey, yyyymm: u32) -> nat {
        self.counter_of(user, yyyymm).count as nat
    }

    /// Whether the instance at the address falls in the month and has been
    /// claimed by the user.
    pub open spec fn counts_towards(self, user: Pubkey, yyyymm: u32) -> spec_fn(Pubkey) -> bool {
        |instance: Pubkey|
            self.instances[instance].month() == yyyymm && self.has_claimed(instance, user)
    }

    /// The instances of the month that the user has claimed.
    pub open spec fn claimed_in_month(self, user: Pubkey, yyyymm: u32) -> Set<Pubkey> {
        self.instances.dom().filter(self.counts_towards(user, yyyymm))
    }

    /// What holds of the records at all times:
    /// - there are finitely many instances, each with a window that is not
    ///   empty and a metadata address that fits;
    /// - a claimed attendance record belongs to an instance that exists, and
    ///   names the instance and the user that it is stored under;
    /// - a counter that has counted names the user and the month that it is
    ///   stored under;
    /// - a user's count for a month is the number of instances of that month
    ///   that the user has claimed.
    pub open spec fn wf(self) -> bool {
        &&& self.instances.dom().finite()
        &&& forall|key: Pubkey| #[trigger]
            self.instances.contains_key(key) ==> {
                &&& self.instances[key].window_end_ts > self.instances[key].window_start_ts
                &&& utf8_len(self.instances[key].metadata_uri_override)
                    <= WorkoutInstance::MAX_METADATA_URI_LEN
            }
        &&& forall|instance: Pubkey, user: Pubkey| #[trigger]
            self.has_claimed(instance, user) ==> {
                &&& self.instances.contains_key(instance)
                &&& self.attendance_of(instance, user).instance == instance
                &&& self.attendance_of(instance, user).user == user
            }
        &&& forall|user: Pubkey, yyyymm: u32| #[trigger]
            self.count(user, yyyymm) > 0 ==> {
                &&& self.counter_of(user, yyyymm).user == user
                &&& self.counter_of(user, yyyymm).yyyymm == yyyymm
            }
        &&& forall|user: Pubkey, yyyymm: u32| #[trigger]
            self.count(user, yyyymm) == self.claimed_in_month(user, yyyymm).len()
    }

    /// Why the request to open is refused, if it is. A caller who may not
    /// open the instance is refused before anything else is looked at.
    pub open spec fn open_error(self, request: OpenRequest) -> Option<WorkoutError> {
        if !may_manage(request.authority, request.admin, request.trainer) {
            Some(WorkoutError::Unauthorized)
        } else {
            opening_rejection(
                self.instances.contains_key(request.instance_key),
                request.window_start_ts,
                request.window_end_ts,
                request.metadata_uri,
            )
        }
    }

    /// The ledger after the request to open: with the new instance if the
    /// request is granted, unchanged if it is refused.
    pub open spec fn open(self, request: OpenRequest) -> Ledger {
        if self.open_error(request) is None {
            Ledger {
                instances: self.instances.insert(
                    request.instance_key,
                    opened_instance(
                        request.trainer,
                        request.yyyymmdd,
                        request.hour,
                        request.minute,
                        request.window_start_ts,
                        request.window_end_ts,
                        request.secret_hash,
                        request.metadata_uri,
                        request.now,
                        request.bump,
                    ),
                ),
                ..self
            }
        } else {
            self
        }
    }

    /// Whether the caller may close the instance named: an administrator, or
    /// the trainer of the instance.
    pub open spec fn may_close(self, request: CloseRequest) -> bool {
        is_admin(request.authority, request.admin) || request.authority
            == self.instances[request.instance_key].trainer
    }

    /// Why the request to close is refused, if it is.
    pub open spec fn close_error(self, request: CloseRequest) -> Option<WorkoutError> {
        if self.may_close(request) {
            None
        } else {
            Some(WorkoutError::Unauthorized)
        }
    }

    /// The ledger after the request to close: with the instance closed if it
    /// exists and the request is granted, unchanged otherwise.
    pub open spec fn close(self, request: CloseRequest) -> Ledger {
        if self.instances.contains_key(request.instance_key) && self.close_error(request) is None {
            Ledger {
                instances: self.instances.insert(
                    request.instance_key,
                    self.instances[request.instance_key].closed(),
                ),
                ..self
            }
        } else {
            self
        }
    }

    /// Why the claim is refused, if it is.
    pub open spec fn claim_error(self, request: ClaimRequest) -> Option<WorkoutError> {
        let instance = self.instances[request.instance_key];
        instance.claim_rejection(
            self.attendance_of(request.instance_key, request.user),
            self.counter_of(request.user, instance.month()),
            request.now,
            request.digest,
        )
    }

    /// Whether the claim is accepted and recorded: the instance exists, and
    /// nothing speaks against the claim.
    pub open spec fn claim_accepted(self, request: ClaimRequest) -> bool {
        self.instances.contains_key(request.instance_key) && self.claim_error(request) is None
    }

    /// The ledger after the claim: with the attendance record claimed and the
    /// counter one higher if the claim is accepted, unchanged otherwise.
    pub open spec fn claim(self, request: ClaimRequest) -> Ledger {
        if self.claim_accepted(request) {
            let yyyymm = self.instances[request.instance_key].month();
            Ledger {
                attendance: self.attendance.insert(
                    (request.instance_key, request.user),
                    Attendance::claimed_by(
                        request.instance_key,
                        request.user,
                        request.bumps.attendance,
                    ),
                ),
                counters: self.counters.insert(
                    (request.user, yyyymm),
                    self.counter_of(request.user, yyyymm).incremented(
                        request.user,
                        yyyymm,
                        request.bumps.monthly_counter,
                    ),
                ),
                ..self
            }
        } else {
            self
        }
    }

    /// The ledger after one request.
    pub open spec fn apply(self, operation: Operation) -> Ledger {
        match operation {
            Operation::Open(request) => self.open(request),
            Operation::Close(request) => self.close(request),
            Operation::Claim(request) => self.claim(request),
        }
    }

    /// The ledger after a series of requests, the first one first.
    pub open spec fn run(self, operations: Seq<Operation>) -> Ledger
        decreases operations.len(),
    {
        if operations.len() == 0 {
            self
        } else {
            self.run(operations.drop_last()).apply(operations.last())
        }
    }

    /// How many requests of the series are accepted claims of the instance by
    /// the user.
    pub open spec fn accepted_claims(
        self,
        operations: Seq<Operation>,
        instance: Pubkey,
        user: Pubkey,
    ) -> nat
        decreases operations.len(),
    {
        if operations.len() == 0 {
            0
        } else {
            let earlier = operations.drop_last();
            let accepted: nat = match operations.last() {
                Operation::Claim(request) => if request.instance_key == instance && request.user
                    == user && self.run(earlier).claim_accepted(request) {
                    1
                } else {
                    0
                },
                _ => 0,
            };
            self.accepted_claims(earlier, instance, user) + accepted
        }
    }
}

} // verus!
