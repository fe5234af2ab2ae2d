use workout_poap::commit_reveal::commit;
use workout_poap::errors::WorkoutError;
use workout_poap::events::{WorkoutClosed, WorkoutOpened};
use workout_poap::instructions::{
    ClaimNft, ClaimNftBumps, CloseWorkoutInstance, OpenWorkoutInstance, OpenWorkoutInstanceBumps,
};
use workout_poap::pubkey::Pubkey;
use workout_poap::state::{Admin, Attendance, MonthlyCounter, Trainer, WorkoutInstance};
use workout_poap::workout_poap::{claim_nft, close_workout_instance, open_workout_instance};

const T0: i64 = 1_761_634_800;

fn key(tag: u8) -> Pubkey {
    Pubkey::new_from_array([tag; 32])
}

fn trainer() -> Trainer {
    Trainer { authority: key(1), display_name: String::from("Coach Alex"), bump: 254 }
}

fn open_ctx(authority: Pubkey, admin: Option<Admin>) -> OpenWorkoutInstance {
    OpenWorkoutInstance {
        authority,
        admin,
        trainer: trainer(),
        instance_key: key(9),
        instance: None,
        bumps: OpenWorkoutInstanceBumps { instance: 253 },
    }
}

fn open_default(ctx: &mut OpenWorkoutInstance) -> Result<WorkoutOpened, WorkoutError> {
    open_workout_instance(ctx, 20251028, 7, 0, T0, T0 + 1800, commit(b"abc123"), None, T0 - 60)
}

fn stored_instance() -> WorkoutInstance {
    WorkoutInstance {
        trainer: key(1),
        start_ts: T0 - 60,
        window_start_ts: T0,
        window_end_ts: T0 + 1800,
        secret_hash: commit(b"abc123"),
        is_closed: false,
        yyyymmdd: 20251028,
        hour: 7,
        minute: 0,
        metadata_uri_override: String::new(),
        bump: 253,
    }
}

fn close_ctx(authority: Pubkey, admin: Option<Admin>) -> CloseWorkoutInstance {
    CloseWorkoutInstance {
        authority,
        admin,
        trainer: trainer(),
        instance_key: key(9),
        instance: stored_instance(),
    }
}

#[test]
fn trainer_opens_their_own_instance() {
    let mut ctx = open_ctx(key(1), None);
    let event = open_default(&mut ctx).unwrap();
    assert_eq!(
        event,
        WorkoutOpened {
            instance: key(9),
            trainer: key(1),
            window_start_ts: T0,
            window_end_ts: T0 + 1800,
            yyyymmdd: 20251028,
            hour: 7,
            minute: 0,
        }
    );
    assert_eq!(ctx.instance, Some(stored_instance()));
}

#[test]
fn admin_opens_an_instance_for_a_trainer() {
    let admin = Admin { authority: key(5), bump: 250 };
    let mut ctx = open_ctx(key(5), Some(admin));
    assert!(open_default(&mut ctx).is_ok());
    let instance = ctx.instance.unwrap();
    assert_eq!(instance.trainer, key(1));
    assert!(!instance.is_closed);
}

#[test]
fn stranger_cannot_open() {
    let mut ctx = open_ctx(key(7), None);
    let before = ctx.clone();
    assert_eq!(open_default(&mut ctx), Err(WorkoutError::Unauthorized));
    assert_eq!(ctx, before);
}

#[test]
fn admin_record_of_someone_else_does_not_authorize() {
    let admin = Admin { authority: key(5), bump: 250 };
    let mut ctx = open_ctx(key(7), Some(admin));
    assert_eq!(open_default(&mut ctx), Err(WorkoutError::Unauthorized));
    assert_eq!(ctx.instance, None);
    assert_eq!(ctx.validate(), Err(WorkoutError::Unauthorized));
}

#[test]
fn stranger_is_refused_whatever_else_is_wrong() {
    let mut ctx = open_ctx(key(7), None);
    ctx.instance = Some(stored_instance());
    let result = open_workout_instance(
        &mut ctx,
        20251028,
        7,
        0,
        T0,
        T0,
        [0; 32],
        Some("x".repeat(500)),
        T0,
    );
    assert_eq!(result, Err(WorkoutError::Unauthorized));
}

#[test]
fn window_must_not_be_empty() {
    for (start, end) in [(T0, T0), (T0, T0 - 1), (i64::MAX, i64::MIN)] {
        let mut ctx = open_ctx(key(1), None);
        let result =
            open_workout_instance(&mut ctx, 20251028, 7, 0, start, end, [0; 32], None, T0);
        assert_eq!(result, Err(WorkoutError::InvalidTimeWindow));
        assert_eq!(ctx.instance, None);
    }
    let mut ctx = open_ctx(key(1), None);
    let result = open_workout_instance(&mut ctx, 20251028, 7, 0, T0, T0 + 1, [0; 32], None, T0);
    assert!(result.is_ok());
}

#[test]
fn metadata_uri_of_200_bytes_is_accepted_and_stored() {
    let uri = "u".repeat(200);
    let mut ctx = open_ctx(key(1), None);
    let result = open_workout_instance(
        &mut ctx,
        20251028,
        7,
        0,
        T0,
        T0 + 1800,
        [0; 32],
        Some(uri.clone()),
        T0,
    );
    assert!(result.is_ok());
    assert_eq!(ctx.instance.unwrap().metadata_uri_override, uri);
}

#[test]
fn metadata_uri_of_201_bytes_is_refused() {
    let mut ctx = open_ctx(key(1), None);
    let result = open_workout_instance(
        &mut ctx,
        20251028,
        7,
        0,
        T0,
        T0 + 1800,
        [0; 32],
        Some("u".repeat(201)),
        T0,
    );
    assert_eq!(result, Err(WorkoutError::MetadataUriTooLong));
    assert_eq!(ctx.instance, None);
}

#[test]
fn metadata_uri_length_is_counted_in_bytes() {
    // 67 three-byte characters are 201 bytes.
    let mut ctx = open_ctx(key(1), None);
    let result = open_workout_instance(
        &mut ctx,
        20251028,
        7,
        0,
        T0,
        T0 + 1800,
        [0; 32],
        Some("\u{20ac}".repeat(67)),
        T0,
    );
    assert_eq!(result, Err(WorkoutError::MetadataUriTooLong));
    // 66 of them are 198 bytes.
    let mut ctx = open_ctx(key(1), None);
    let result = open_workout_instance(
        &mut ctx,
        20251028,
        7,
        0,
        T0,
        T0 + 1800,
        [0; 32],
        Some("\u{20ac}".repeat(66)),
        T0,
    );
    assert!(result.is_ok());
}

#[test]
fn absent_metadata_uri_is_stored_as_empty() {
    let mut ctx = open_ctx(key(1), None);
    assert!(open_default(&mut ctx).is_ok());
    assert_eq!(ctx.instance.unwrap().metadata_uri_override, "");
}

#[test]
fn window_is_checked_before_metadata_uri() {
    let mut ctx = open_ctx(key(1), None);
    let result = open_workout_instance(
        &mut ctx,
        20251028,
        7,
        0,
        T0,
        T0,
        [0; 32],
        Some("u".repeat(201)),
        T0,
    );
    assert_eq!(result, Err(WorkoutError::InvalidTimeWindow));
}

#[test]
fn instance_is_opened_only_once() {
    let mut ctx = open_ctx(key(1), None);
    assert!(open_default(&mut ctx).is_ok());
    let after_first = ctx.clone();
    let again = open_workout_instance(
        &mut ctx,
        20251028,
        7,
        0,
        T0 + 5,
        T0 + 10,
        commit(b"other"),
        None,
        T0,
    );
    assert_eq!(again, Err(WorkoutError::AlreadyExists));
    assert_eq!(ctx, after_first);
}

#[test]
fn creation_time_is_the_time_given() {
    let mut ctx = open_ctx(key(1), None);
    let result =
        open_workout_instance(&mut ctx, 20251028, 7, 0, T0, T0 + 1800, [0; 32], None, 42);
    assert!(result.is_ok());
    assert_eq!(ctx.instance.unwrap().start_ts, 42);
}

#[test]
fn trainer_closes_their_own_instance() {
    let mut ctx = close_ctx(key(1), None);
    let event = close_workout_instance(&mut ctx).unwrap();
    assert_eq!(event, WorkoutClosed { instance: key(9), trainer: key(1) });
    let mut expected = stored_instance();
    expected.is_closed = true;
    assert_eq!(ctx.instance, expected);
}

#[test]
fn admin_closes_an_instance() {
    let admin = Admin { authority: key(5), bump: 250 };
    let mut ctx = close_ctx(key(5), Some(admin));
    assert!(close_workout_instance(&mut ctx).is_ok());
    assert!(ctx.instance.is_closed);
}

#[test]
fn stranger_cannot_close() {
    let mut ctx = close_ctx(key(7), None);
    let before = ctx.clone();
    assert_eq!(close_workout_instance(&mut ctx), Err(WorkoutError::Unauthorized));
    assert_eq!(ctx, before);
    assert!(!ctx.instance.is_closed);
    assert_eq!(ctx.validate(), Err(WorkoutError::Unauthorized));
}

#[test]
fn another_trainer_cannot_close() {
    let mut ctx = close_ctx(key(8), None);
    ctx.trainer = Trainer { authority: key(8), display_name: String::from("Coach Bo"), bump: 1 };
    assert_eq!(close_workout_instance(&mut ctx), Err(WorkoutError::Unauthorized));
    assert!(!ctx.instance.is_closed);
}

#[test]
fn closing_twice_is_harmless() {
    let mut ctx = close_ctx(key(1), None);
    assert!(close_workout_instance(&mut ctx).is_ok());
    let after_first = ctx.clone();
    assert_eq!(
        close_workout_instance(&mut ctx),
        Ok(WorkoutClosed { instance: key(9), trainer: key(1) })
    );
    assert_eq!(ctx, after_first);
}

#[test]
fn closing_twice_still_asks_for_authorization() {
    let mut ctx = close_ctx(key(1), None);
    assert!(close_workout_instance(&mut ctx).is_ok());
    ctx.authority = key(7);
    assert_eq!(close_workout_instance(&mut ctx), Err(WorkoutError::Unauthorized));
    assert!(ctx.instance.is_closed);
}

#[test]
fn closed_instance_refuses_claims_within_the_window() {
    let mut opening = open_ctx(key(1), None);
    assert!(open_default(&mut opening).is_ok());
    let mut closing = CloseWorkoutInstance {
        authority: key(1),
        admin: None,
        trainer: trainer(),
        instance_key: key(9),
        instance: opening.instance.unwrap(),
    };
    assert!(close_workout_instance(&mut closing).is_ok());
    let mut claim = ClaimNft {
        user: key(2),
        instance_key: key(9),
        instance: closing.instance,
        trainer: trainer(),
        attendance: Attendance::default(),
        monthly_counter: MonthlyCounter::default(),
        bumps: ClaimNftBumps { attendance: 252, monthly_counter: 251 },
    };
    assert_eq!(
        claim_nft(&mut claim, T0 + 10, b"abc123".to_vec()),
        Err(WorkoutError::InstanceClosed)
    );
    assert!(!claim.attendance.claimed);
    assert_eq!(claim.monthly_counter.count, 0);
}

#[test]
fn validate_accepts_admin_and_trainer() {
    assert_eq!(open_ctx(key(1), None).validate(), Ok(()));
    assert_eq!(open_ctx(key(5), Some(Admin { authority: key(5), bump: 1 })).validate(), Ok(()));
    assert_eq!(close_ctx(key(1), None).validate(), Ok(()));
    assert_eq!(close_ctx(key(5), Some(Admin { authority: key(5), bump: 1 })).validate(), Ok(()));
}
