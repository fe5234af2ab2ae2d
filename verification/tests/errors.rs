use workout_poap::access::{authorize, check_admin};
use workout_poap::errors::{WorkoutError, ERROR_CODE_OFFSET};
use workout_poap::pubkey::Pubkey;
use workout_poap::state::Admin;
use workout_poap::text::byte_len;

const ALL: [WorkoutError; 14] = [
    WorkoutError::Unauthorized,
    WorkoutError::NotConfigAuthority,
    WorkoutError::NotAssignedTrainer,
    WorkoutError::InvalidClaimWindow,
    WorkoutError::InstanceClosed,
    WorkoutError::AlreadyClaimed,
    WorkoutError::HashMismatch,
    WorkoutError::EmptySchedule,
    WorkoutError::TooManySlots,
    WorkoutError::DisplayNameTooLong,
    WorkoutError::InvalidTimeWindow,
    WorkoutError::MetadataUriTooLong,
    WorkoutError::AlreadyExists,
    WorkoutError::CounterOverflow,
];

#[test]
fn codes_count_up_from_the_offset() {
    assert_eq!(ERROR_CODE_OFFSET, 6000);
    for (position, error) in ALL.iter().enumerate() {
        assert_eq!(error.code(), 6000 + position as u32);
    }
    assert_eq!(WorkoutError::Unauthorized.code(), 6000);
    assert_eq!(WorkoutError::HashMismatch.code(), 6006);
    assert_eq!(WorkoutError::MetadataUriTooLong.code(), 6011);
}

#[test]
fn codes_tell_the_errors_apart() {
    for (i, a) in ALL.iter().enumerate() {
        for (j, b) in ALL.iter().enumerate() {
            assert_eq!(a.code() == b.code(), i == j);
            assert_eq!(a == b, i == j);
        }
    }
}

#[test]
fn messages_are_the_documented_ones() {
    assert_eq!(WorkoutError::Unauthorized.message(), "Unauthorized: caller is not an admin");
    assert_eq!(
        WorkoutError::NotConfigAuthority.message(),
        "Unauthorized: caller is not the config authority"
    );
    assert_eq!(
        WorkoutError::NotAssignedTrainer.message(),
        "Unauthorized: caller is not the assigned trainer for this workout"
    );
    assert_eq!(
        WorkoutError::InvalidClaimWindow.message(),
        "Invalid claim window: current time is outside the allowed window"
    );
    assert_eq!(WorkoutError::InstanceClosed.message(), "Workout instance is already closed");
    assert_eq!(
        WorkoutError::AlreadyClaimed.message(),
        "Already claimed: user has already claimed an NFT for this workout"
    );
    assert_eq!(
        WorkoutError::HashMismatch.message(),
        "Hash mismatch: provided secret does not match the stored hash"
    );
    assert_eq!(
        WorkoutError::EmptySchedule.message(),
        "Invalid schedule: must have at least one time slot"
    );
    assert_eq!(WorkoutError::TooManySlots.message(), "Schedule has too many slots (max 20)");
    assert_eq!(
        WorkoutError::DisplayNameTooLong.message(),
        "Display name too long (max 64 bytes)"
    );
    assert_eq!(
        WorkoutError::InvalidTimeWindow.message(),
        "Invalid time: window_end_ts must be after window_start_ts"
    );
    assert_eq!(
        WorkoutError::MetadataUriTooLong.message(),
        "Metadata URI override too long (max 200 bytes)"
    );
    for error in ALL.iter() {
        assert!(!error.message().is_empty());
    }
}

#[test]
fn authorization_failures_are_the_first_three() {
    for (position, error) in ALL.iter().enumerate() {
        assert_eq!(error.is_authorization_failure(), position < 3);
    }
}

#[test]
fn admin_or_trainer_is_authorized() {
    let caller = Pubkey::new_from_array([1; 32]);
    let other = Pubkey::new_from_array([2; 32]);
    let own = Some(Admin { authority: caller, bump: 1 });
    let foreign = Some(Admin { authority: other, bump: 1 });
    assert!(check_admin(&caller, &own));
    assert!(!check_admin(&caller, &foreign));
    assert!(!check_admin(&caller, &None));
    assert!(authorize(&caller, &own, &other));
    assert!(authorize(&caller, &None, &caller));
    assert!(authorize(&caller, &foreign, &caller));
    assert!(!authorize(&caller, &foreign, &other));
    assert!(!authorize(&caller, &None, &other));
}

#[test]
fn keys_are_equal_when_all_bytes_are() {
    let a = Pubkey::new_from_array([7; 32]);
    let mut bytes = [7u8; 32];
    assert!(a == Pubkey::new_from_array(bytes));
    bytes[31] = 8;
    assert!(a != Pubkey::new_from_array(bytes));
    bytes[31] = 7;
    bytes[0] = 6;
    assert!(a != Pubkey::new_from_array(bytes));
    assert_eq!(Pubkey::default().to_bytes(), [0u8; 32]);
    assert_eq!(a.to_bytes(), [7u8; 32]);
}

#[test]
fn text_length_is_its_utf8_length() {
    assert_eq!(byte_len(&String::new()), 0);
    assert_eq!(byte_len(&String::from("abc")), 3);
    assert_eq!(byte_len(&String::from("\u{e9}")), 2);
    assert_eq!(byte_len(&String::from("\u{20ac}")), 3);
    assert_eq!(byte_len(&String::from("\u{1f600}")), 4);
}
