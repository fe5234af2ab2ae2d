use workout_poap::address::{
    admin_address, attendance_address, config_address, instance_address, monthly_address,
    schedule_address, trainer_address,
};
use workout_poap::pubkey::Pubkey;
use workout_poap::seeds::{
    admin_seeds, attendance_seeds, config_seeds, instance_seeds, monthly_seeds, schedule_seeds,
    trainer_seeds,
};

fn key(tag: u8) -> Pubkey {
    Pubkey::new_from_array([tag; 32])
}

fn program() -> Pubkey {
    key(77)
}

fn outside(seeds: &[&[u8]]) -> Option<(Pubkey, u8)> {
    let program = anchor_lang::prelude::Pubkey::new_from_array([77; 32]);
    anchor_lang::prelude::Pubkey::try_find_program_address(seeds, &program)
        .map(|(address, bump)| (Pubkey::new_from_array(address.to_bytes()), bump))
}

#[test]
fn seeds_of_an_instance_are_tag_trainer_date_hour_minute() {
    let seeds = instance_seeds(&key(1), 20251028, 7, 0);
    assert_eq!(
        seeds,
        vec![
            b"instance".to_vec(),
            vec![1u8; 32],
            vec![0x94, 0x01, 0x35, 0x01],
            vec![7u8],
            vec![0u8],
        ]
    );
    assert_eq!(seeds[2], 20251028u32.to_le_bytes().to_vec());
}

#[test]
fn seeds_of_an_attendance_record_are_tag_instance_user() {
    assert_eq!(
        attendance_seeds(&key(9), &key(2)),
        vec![b"attendance".to_vec(), vec![9u8; 32], vec![2u8; 32]]
    );
}

#[test]
fn seeds_of_a_counter_are_tag_user_month() {
    assert_eq!(
        monthly_seeds(&key(2), 202510),
        vec![b"monthly".to_vec(), vec![2u8; 32], vec![0x0e, 0x17, 0x03, 0x00]]
    );
}

#[test]
fn seeds_of_the_role_records_are_tag_and_principal() {
    assert_eq!(config_seeds(), vec![b"config".to_vec()]);
    assert_eq!(admin_seeds(&key(5)), vec![b"admin".to_vec(), vec![5u8; 32]]);
    assert_eq!(trainer_seeds(&key(1)), vec![b"trainer".to_vec(), vec![1u8; 32]]);
}

#[test]
fn seeds_of_a_schedule_are_tag_and_id_bytes() {
    assert_eq!(
        schedule_seeds("morning-bootcamp"),
        vec![b"schedule".to_vec(), b"morning-bootcamp".to_vec()]
    );
    assert_eq!(
        schedule_seeds("\u{e9}t\u{e9}"),
        vec![b"schedule".to_vec(), vec![0xc3, 0xa9, b't', 0xc3, 0xa9]]
    );
}

#[test]
fn instance_address_is_the_one_derived_from_its_seeds() {
    let found = instance_address(&program(), &key(1), 20251028, 7, 0);
    let expected =
        outside(&[b"instance", &[1u8; 32], &20251028u32.to_le_bytes(), &[7u8], &[0u8]]);
    assert!(found.is_some());
    assert_eq!(found, expected);
    assert!(found.unwrap().0 != program());
}

#[test]
fn instance_address_tells_trainer_date_hour_and_minute_apart() {
    let base = instance_address(&program(), &key(1), 20251028, 7, 0).unwrap().0;
    assert_eq!(instance_address(&program(), &key(1), 20251028, 7, 0).unwrap().0, base);
    assert!(instance_address(&program(), &key(2), 20251028, 7, 0).unwrap().0 != base);
    assert!(instance_address(&program(), &key(1), 20251029, 7, 0).unwrap().0 != base);
    assert!(instance_address(&program(), &key(1), 20251028, 8, 0).unwrap().0 != base);
    assert!(instance_address(&program(), &key(1), 20251028, 7, 1).unwrap().0 != base);
    assert!(instance_address(&key(78), &key(1), 20251028, 7, 0).unwrap().0 != base);
}

#[test]
fn attendance_and_counter_addresses_are_derived_from_their_seeds() {
    assert_eq!(
        attendance_address(&program(), &key(9), &key(2)),
        outside(&[b"attendance", &[9u8; 32], &[2u8; 32]])
    );
    assert_eq!(
        monthly_address(&program(), &key(2), 202510),
        outside(&[b"monthly", &[2u8; 32], &202510u32.to_le_bytes()])
    );
    assert!(
        attendance_address(&program(), &key(9), &key(2))
            != attendance_address(&program(), &key(2), &key(9))
    );
}

#[test]
fn role_addresses_are_derived_from_their_seeds() {
    assert_eq!(config_address(&program()), outside(&[b"config"]));
    assert_eq!(admin_address(&program(), &key(5)), outside(&[b"admin", &[5u8; 32]]));
    assert_eq!(trainer_address(&program(), &key(1)), outside(&[b"trainer", &[1u8; 32]]));
    assert!(admin_address(&program(), &key(5)) != trainer_address(&program(), &key(5)));
}

#[test]
fn schedule_address_is_derived_from_the_id() {
    assert_eq!(
        schedule_address(&program(), "morning-bootcamp"),
        outside(&[b"schedule", b"morning-bootcamp"])
    );
    assert!(schedule_address(&program(), &"s".repeat(32)).is_some());
}

#[test]
fn schedule_id_longer_than_a_seed_has_no_address() {
    assert_eq!(schedule_address(&program(), &"s".repeat(33)), None);
    assert_eq!(schedule_address(&program(), &"\u{20ac}".repeat(11)), None);
}
