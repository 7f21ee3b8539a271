use sys_shred::engine::metadata::{MetadataHandler, RenameStep, NAME_LEN, RENAME_ATTEMPTS};
use sys_shred::ShredError;

#[test]
fn random_names_are_sixteen_alphanumerics() {
    for _ in 0..50 {
        let n = MetadataHandler::random_name().unwrap();
        assert_eq!(n.len(), NAME_LEN);
        assert_eq!(n.chars().count(), 16);
        assert!(n.chars().all(|c| c.is_ascii_alphanumeric()));
    }
}

#[test]
fn random_names_differ() {
    assert_ne!(MetadataHandler::random_name().unwrap(), MetadataHandler::random_name().unwrap());
}

#[test]
fn free_name_is_taken_at_once() {
    assert!(matches!(MetadataHandler::rename_step(0, false), RenameStep::Rename));
    assert!(matches!(MetadataHandler::rename_step(4, false), RenameStep::Rename));
}

#[test]
fn collisions_retry_up_to_five_attempts() {
    assert_eq!(RENAME_ATTEMPTS, 5);
    for attempt in 0..4 {
        assert!(matches!(MetadataHandler::rename_step(attempt, true), RenameStep::TryAnother));
    }
    match MetadataHandler::rename_step(4, true) {
        RenameStep::GiveUp(ShredError::Obfuscation(m)) => assert_eq!(
            m,
            "Failed to generate a unique random filename after multiple attempts"
        ),
        other => panic!("unexpected {:?}", other),
    }
}

#[test]
fn names_follow_their_seed() {
    let seed: Vec<u8> = (0..32).collect();
    let a = MetadataHandler::name_from_seed(&seed);
    assert_eq!(a, MetadataHandler::name_from_seed(&seed));
    assert_eq!(a.len(), 16);
    assert!(a.chars().all(|c| c.is_ascii_alphanumeric()));
    let other: Vec<u8> = (1..33).collect();
    assert_ne!(a, MetadataHandler::name_from_seed(&other));
}
