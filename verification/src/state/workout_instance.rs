use vstd::prelude::*;
use crate::text::utf8_len;
use crate::errors::WorkoutError;
use crate::pubkey::Pubkey;
use crate::state::attendance::Attendance;
use crate::state::monthly_counter::MonthlyCounter;

verus! {

/// One occurrence of a trainer-led workout. There is one record per trainer,
/// date, hour and minute, addressed by the tag `instance` and those four.
///
/// The record is created open, with a claim window and the SHA-256 digest of a
/// secret that the trainer reveals after the workout. Closing is the only
/// change it ever sees, and it is never undone.
#[derive(Clone, Debug, PartialEq, Eq)]
pub struct WorkoutInstance {
    /// The trainer leading the workout.
    pub trainer: Pubkey,
    /// Unix time at which the record was created.
    pub start_ts: i64,
    /// Unix time from which claims are accepted.
    pub window_start_ts: i64,
    /// Unix time up to and including which claims are accepted.
    pub window_end_ts: i64,
    /// SHA-256 digest of the secret to reveal.
    pub secret_hash: [u8; 32],
    /// Whether the instance is closed: no claim is accepted any more.
    pub is_closed: bool,
    /// Date of the workout, as YYYYMMDD.
    pub yyyymmdd: u32,
    /// Hour of the workout, 0 to 23.
    pub hour: u8,
    /// Minute of the workout, 0 to 59.
    pub minute: u8,
    /// Address of the credential's metadata where it is not the default one;
    /// empty otherwise. At most `MAX_METADATA_URI_LEN` bytes.
    pub metadata_uri_override: String,
    /// Bump seed of the record's address.
    pub bump: u8,
}

/// What a workout instance record holds.
pub struct WorkoutInstanceView {
    pub trainer: Pubkey,
    pub start_ts: i64,
    pub window_start_ts: i64,
    pub window_end_ts: i64,
    pub secret_hash: Seq<u8>,
    pub is_closed: bool,
    pub yyyymmdd: u32,
    pub hour: u8,
    pub minute: u8,
    pub metadata_uri_override: Seq<char>,
    pub bump: u8,
}

impl View for WorkoutInstance {
    type V = WorkoutInstanceView;

    open spec fn view(&self) -> WorkoutInstanceView {
        WorkoutInstanceView {
            trainer: self.trainer,
            start_ts: self.start_ts,
            window_start_ts: self.window_start_ts,
            window_end_ts: self.window_end_ts,
            secret_hash: self.secret_hash@,
            is_closed: self.is_closed,
            yyyymmdd: self.yyyymmdd,
            hour: self.hour,
            minute: self.minute,
            metadata_uri_override: self.metadata_uri_override@,
            bump: self.bump,
        }
    }
}

impl WorkoutInstanceView {
    /// Whether `now` lies in the claim window, both ends included.
    pub open spec fn in_window(self, now: i64) -> bool {
        self.window_start_ts <= now <= self.window_end_ts
    }

    /// Whether `digest` is the digest that the instance was opened with.
    pub open spec fn accepts_digest(self, digest: Seq<u8>) -> bool {
        digest == self.secret_hash
    }

    /// The month, as YYYYMM, towards which a claim of this instance counts.
    pub open spec fn month(self) -> u32 {
        (self.yyyymmdd / 100) as u32
    }

    /// Why a claim of this instance is refused, if it is: a claim made at
    /// `now`, by a user whose attendance record is `attendance` and whose
    /// counter for the month is `counter`, revealing a secret whose digest is
    /// `digest`. The checks come in this order: the instance is closed; `now`
    /// is outside the window; the digest is not the committed one; the user
    /// has claimed before; the counter cannot count further.
    pub open spec fn claim_rejection(
        self,
        attendance: Attendance,
        counter: MonthlyCounter,
        now: i64,
        digest: Seq<u8>,
    ) -> Option<WorkoutError> {
        if self.is_closed {
            Some(WorkoutError::InstanceClosed)
        } else if !self.in_window(now) {
            Some(WorkoutError::InvalidClaimWindow)
        } else if !self.accepts_digest(digest) {
            Some(WorkoutError::HashMismatch)
        } else if attendance.claimed {
            Some(WorkoutError::AlreadyClaimed)
        } else if !counter.has_room() {
            Some(WorkoutError::CounterOverflow)
        } else {
            None
        }
    }

    /// The same instance, closed.
    pub open spec fn closed(self) -> WorkoutInstanceView {
        WorkoutInstanceView { is_closed: true, ..self }
    }
}

impl WorkoutInstanceView {
    /// The claim window includes both its ends. At every time in the window a
    /// claim fares as it does at the window's start, and it is not the time
    /// that speaks against it; one second before the start and one second
    /// after the end, an open instance refuses every claim with
    /// `InvalidClaimWindow`.
    pub proof fn lemma_window_ends_are_included(
        self,
        attendance: Attendance,
        counter: MonthlyCounter,
        now: i64,
        digest: Seq<u8>,
    )
        requires
            self.window_start_ts <= self.window_end_ts,
        ensures
            self.in_window(self.window_start_ts),
            self.in_window(self.window_end_ts),
            self.in_window(now) ==> self.claim_rejection(attendance, counter, now, digest)
                == self.claim_rejection(attendance, counter, self.window_start_ts, digest),
            self.in_window(now) ==> self.claim_rejection(attendance, counter, now, digest)
                != Some(WorkoutError::InvalidClaimWindow),
            !self.is_closed && (now == self.window_end_ts + 1 || now == self.window_start_ts - 1)
                ==> self.claim_rejection(attendance, counter, now, digest) == Some(
                WorkoutError::InvalidClaimWindow,
            ),
            self.claim_rejection(attendance, counter, now, digest) is None ==> self.in_window(
                now,
            ),
    {
    }
}

impl WorkoutInstance {
    /// Longest metadata address, in bytes.
    pub const MAX_METADATA_URI_LEN: usize = 200;

    /// Stored size in bytes: discriminator, trainer, three times, digest,
    /// flag, date, hour, minute, length-prefixed metadata address, bump.
    pub const LEN: usize = 8 + 32 + 8 + 8 + 8 + 32 + 1 + 4 + 1 + 1 + 4 + 200 + 1;

    /// The claim window is not empty, and the metadata address fits the
    /// record.
    pub open spec fn wf(&self) -> bool {
        &&& self.window_end_ts > self.window_start_ts
        &&& utf8_len(self.metadata_uri_override@) <= WorkoutInstance::MAX_METADATA_URI_LEN
    }
}

} // verus!
