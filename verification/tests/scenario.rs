use workout_poap::commit_reveal::commit;
use workout_poap::errors::WorkoutError;
use workout_poap::instructions::{
    ClaimNft, ClaimNftBumps, OpenWorkoutInstance, OpenWorkoutInstanceBumps,
};
use workout_poap::pubkey::Pubkey;
use workout_poap::state::{Attendance, MonthlyCounter, Trainer, WorkoutInstance};
use workout_poap::workout_poap::{claim_nft, open_workout_instance};

fn key(tag: u8) -> Pubkey {
    Pubkey::new_from_array([tag; 32])
}

fn trainer_record() -> Trainer {
    Trainer { authority: key(1), display_name: String::from("Coach Alex"), bump: 254 }
}

fn opened_instance(t0: i64) -> WorkoutInstance {
    let mut ctx = OpenWorkoutInstance {
        authority: key(1),
        admin: None,
        trainer: trainer_record(),
        instance_key: key(9),
        instance: None,
        bumps: OpenWorkoutInstanceBumps { instance: 253 },
    };
    let opened = open_workout_instance(
        &mut ctx,
        20251028,
        7,
        0,
        t0,
        t0 + 1800,
        commit(b"abc123"),
        None,
        t0 - 60,
    );
    assert!(opened.is_ok());
    ctx.instance.unwrap()
}

#[test]
fn sha256_of_abc123_is_the_known_digest() {
    let expected: [u8; 32] = [
        0x6c, 0xa1, 0x3d, 0x52, 0xca, 0x70, 0xc8, 0x83, 0xe0, 0xf0, 0xbb, 0x10, 0x1e, 0x42, 0x5a,
        0x89, 0xe8, 0x62, 0x4d, 0xe5, 0x1d, 0xb2, 0xd2, 0x39, 0x25, 0x93, 0xaf, 0x6a, 0x84, 0x11,
        0x80, 0x90,
    ];
    assert_eq!(commit(b"abc123"), expected);
}

#[test]
fn example_scenario_claim_then_duplicate_then_wrong_secret() {
    let t0: i64 = 1_761_634_800;
    let instance = opened_instance(t0);
    let user = key(2);
    let other = key(3);

    let mut ctx = ClaimNft {
        user,
        instance_key: key(9),
        instance: instance.clone(),
        trainer: trainer_record(),
        attendance: Attendance::default(),
        monthly_counter: MonthlyCounter::default(),
        bumps: ClaimNftBumps { attendance: 252, monthly_counter: 251 },
    };
    let first = claim_nft(&mut ctx, t0 + 10, b"abc123".to_vec());
    let event = first.unwrap();
    assert_eq!(event.user, user);
    assert_eq!(event.instance, key(9));
    assert_eq!(event.yyyymm, 202510);
    assert_eq!(event.new_monthly_count, 1);
    assert!(ctx.attendance.claimed);
    assert_eq!(ctx.monthly_counter.user, user);
    assert_eq!(ctx.monthly_counter.yyyymm, 202510);
    assert_eq!(ctx.monthly_counter.count, 1);

    let second = claim_nft(&mut ctx, t0 + 20, b"abc123".to_vec());
    assert_eq!(second, Err(WorkoutError::AlreadyClaimed));
    assert_eq!(ctx.monthly_counter.count, 1);
    assert!(ctx.attendance.claimed);

    let mut other_ctx = ClaimNft {
        user: other,
        instance_key: key(9),
        instance,
        trainer: trainer_record(),
        attendance: Attendance::default(),
        monthly_counter: MonthlyCounter::default(),
        bumps: ClaimNftBumps { attendance: 250, monthly_counter: 249 },
    };
    let wrong = claim_nft(&mut other_ctx, t0 + 30, b"wrong".to_vec());
    assert_eq!(wrong, Err(WorkoutError::HashMismatch));
    assert!(!other_ctx.attendance.claimed);
    assert_eq!(other_ctx.monthly_counter.count, 0);
}
