use vstd::prelude::*;

verus! {

/// First code of the range in which the program reports its own errors.
pub const ERROR_CODE_OFFSET: u32 = 6000;

/// Why an operation was refused.
///
/// The first three mean that the caller lacks the role that the operation
/// asks for: `Unauthorized` where an administrator, or the administrator or
/// trainer of a workout, is asked for, and `NotConfigAuthority` where the
/// super-admin is. `NotAssignedTrainer` is reported by no operation here; it
/// keeps its place so that the codes after it stay what they are.
///
/// The input errors (`EmptySchedule`, `TooManySlots`, `DisplayNameTooLong`,
/// `InvalidTimeWindow`, `MetadataUriTooLong`) and `AlreadyExists` are found
/// before anything is written; so are the claim errors (`InvalidClaimWindow`,
/// `InstanceClosed`, `AlreadyClaimed`, `HashMismatch`), which are final for
/// that attempt. `CounterOverflow` is fatal: a count is never wrapped around.
#[derive(Clone, Copy, Debug, PartialEq, Eq, Structural)]
pub enum WorkoutError {
    Unauthorized,
    NotConfigAuthority,
    NotAssignedTrainer,
    InvalidClaimWindow,
    InstanceClosed,
    AlreadyClaimed,
    HashMismatch,
    EmptySchedule,
    TooManySlots,
    DisplayNameTooLong,
    InvalidTimeWindow,
    MetadataUriTooLong,
    AlreadyExists,
    CounterOverflow,
}

impl WorkoutError {
    /// Position of the variant in the declaration, from 0.
    pub open spec fn ordinal(self) -> nat {
        match self {
            WorkoutError::Unauthorized => 0,
            WorkoutError::NotConfigAuthority => 1,
            WorkoutError::NotAssignedTrainer => 2,
            WorkoutError::InvalidClaimWindow => 3,
            WorkoutError::InstanceClosed => 4,
            WorkoutError::AlreadyClaimed => 5,
            WorkoutError::HashMismatch => 6,
            WorkoutError::EmptySchedule => 7,
            WorkoutError::TooManySlots => 8,
            WorkoutError::DisplayNameTooLong => 9,
            WorkoutError::InvalidTimeWindow => 10,
            WorkoutError::MetadataUriTooLong => 11,
            WorkoutError::AlreadyExists => 12,
            WorkoutError::CounterOverflow => 13,
        }
    }

    /// The caller lacked the role that the operation asks for.
    pub open spec fn spec_is_authorization_failure(self) -> bool {
        self == WorkoutError::Unauthorized || self == WorkoutError::NotConfigAuthority || self
            == WorkoutError::NotAssignedTrainer
    }

    /// The text that goes with the error.
    pub open spec fn spec_message(self) -> Seq<char> {
        match self {
            WorkoutError::Unauthorized => "Unauthorized: caller is not an admin"@,
            WorkoutError::NotConfigAuthority => "Unauthorized: caller is not the config authority"@,
            WorkoutError::NotAssignedTrainer => "Unauthorized: caller is not the assigned trainer for this workout"@,
            WorkoutError::InvalidClaimWindow => "Invalid claim window: current time is outside the allowed window"@,
            WorkoutError::InstanceClosed => "Workout instance is already closed"@,
            WorkoutError::AlreadyClaimed => "Already claimed: user has already claimed an NFT for this workout"@,
            WorkoutError::HashMismatch => "Hash mismatch: provided secret does not match the stored hash"@,
            WorkoutError::EmptySchedule => "Invalid schedule: must have at least one time slot"@,
            WorkoutError::TooManySlots => "Schedule has too many slots (max 20)"@,
            WorkoutError::DisplayNameTooLong => "Display name too long (max 64 bytes)"@,
            WorkoutError::InvalidTimeWindow => "Invalid time: window_end_ts must be after window_start_ts"@,
            WorkoutError::MetadataUriTooLong => "Metadata URI override too long (max 200 bytes)"@,
            WorkoutError::AlreadyExists => "Already exists: a record is stored at this address already"@,
            WorkoutError::CounterOverflow => "Counter overflow: the monthly count cannot be raised any further"@,
        }
    }

    /// The number under which the error is reported: the offset plus the
    /// variant's position.
    pub fn code(&self) -> (code: u32)
        ensures
            code == ERROR_CODE_OFFSET + self.ordinal(),
    {
        let ordinal: u32 = match self {
            WorkoutError::Unauthorized => 0,
            WorkoutError::NotConfigAuthority => 1,
            WorkoutError::NotAssignedTrainer => 2,
            WorkoutError::InvalidClaimWindow => 3,
            WorkoutError::InstanceClosed => 4,
            WorkoutError::AlreadyClaimed => 5,
            WorkoutError::HashMismatch => 6,
            WorkoutError::EmptySchedule => 7,
            WorkoutError::TooManySlots => 8,
            WorkoutError::DisplayNameTooLong => 9,
            WorkoutError::InvalidTimeWindow => 10,
            WorkoutError::MetadataUriTooLong => 11,
            WorkoutError::AlreadyExists => 12,
            WorkoutError::CounterOverflow => 13,
        };
        ERROR_CODE_OFFSET + ordinal
    }

    pub fn is_authorization_failure(&self) -> (yes: bool)
        ensures
            yes == self.spec_is_authorization_failure(),
    {
        match self {
            WorkoutError::Unauthorized => true,
            WorkoutError::NotConfigAuthority => true,
            WorkoutError::NotAssignedTrainer => true,
            _ => false,
        }
    }

    pub fn message(&self) -> (text: String)
        ensures
            text@ == self.spec_message(),
    {
        let text: &str = match self {
            WorkoutError::Unauthorized => "Unauthorized: caller is not an admin",
            WorkoutError::NotConfigAuthority => "Unauthorized: caller is not the config authority",
            WorkoutError::NotAssignedTrainer => "Unauthorized: caller is not the assigned trainer for this workout",
            WorkoutError::InvalidClaimWindow => "Invalid claim window: current time is outside the allowed window",
            WorkoutError::InstanceClosed => "Workout instance is already closed",
            WorkoutError::AlreadyClaimed => "Already claimed: user has already claimed an NFT for this workout",
            WorkoutError::HashMismatch => "Hash mismatch: provided secret does not match the stored hash",
            WorkoutError::EmptySchedule => "Invalid schedule: must have at least one time slot",
            WorkoutError::TooManySlots => "Schedule has too many slots (max 20)",
            WorkoutError::DisplayNameTooLong => "Display name too long (max 64 bytes)",
            WorkoutError::InvalidTimeWindow => "Invalid time: window_end_ts must be after window_start_ts",
            WorkoutError::MetadataUriTooLong => "Metadata URI override too long (max 200 bytes)",
            WorkoutError::AlreadyExists => "Already exists: a record is stored at this address already",
            WorkoutError::CounterOverflow => "Counter overflow: the monthly count cannot be raised any further",
        };
        text.to_owned()
    }

    /// Two errors that are reported under one code are one error.
    pub proof fn lemma_codes_distinguish(a: WorkoutError, b: WorkoutError)
        ensures
            a.ordinal() == b.ordinal() <==> a == b,
    {
    }
}

} // verus!
