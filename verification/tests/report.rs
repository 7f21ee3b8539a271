use sys_shred::cli::args::ShredMethod;
use sys_shred::engine::report::{ShredEvent, ShredReport, Timestamp};
use sys_shred::ShredError;
use std::path::PathBuf;

fn at(secs: i64) -> Timestamp {
    Timestamp::from_unix(secs, 0).unwrap()
}

#[test]
fn timestamps_render_like_chrono() {
    let t = at(1431648000);
    assert_eq!(t.display(), "2015-05-15 00:00:00 UTC");
    assert_eq!(t.format_seconds(), "2015-05-15 00:00:00");
    assert_eq!(Timestamp::from_unix(1431648000, 500_000_000).unwrap().display(), "2015-05-15 00:00:00.500 UTC");
    assert!(Timestamp::from_unix(i64::MAX, 0).is_none());
    assert_eq!((t.secs(), t.nanos()), (1431648000, 0));
}

#[test]
fn events_record_the_outcome() {
    let ok = ShredEvent::completed(PathBuf::from("/a"), at(0), ShredMethod::Dod, &Ok(()));
    assert!(ok.success && ok.error.is_none());
    assert_eq!(ok.path, PathBuf::from("/a"));
    let failed = ShredEvent::completed(
        PathBuf::from("/b"),
        at(0),
        ShredMethod::Zero,
        &Err(ShredError::InvalidPath("bad".to_string())),
    );
    assert!(!failed.success);
    assert_eq!(failed.error.as_deref(), Some("Inaccessible Path Error: bad"));
}

#[test]
fn report_counts_successes_and_failures() {
    let events = vec![
        ShredEvent::completed(PathBuf::from("/a"), at(0), ShredMethod::Random, &Ok(())),
        ShredEvent::completed(PathBuf::from("/b"), at(0), ShredMethod::Random, &Err(ShredError::Cli("x".to_string()))),
        ShredEvent::completed(PathBuf::from("/c"), at(0), ShredMethod::Random, &Ok(())),
    ];
    let r = ShredReport::new(events).unwrap();
    assert_eq!((r.total_files, r.success_count, r.failure_count), (3, 2, 1));
    assert_eq!(r.events.len(), 3);
    let empty = ShredReport::new(Vec::new()).unwrap();
    assert_eq!((empty.total_files, empty.success_count, empty.failure_count), (0, 0, 0));
}

#[test]
fn text_report_is_exact() {
    let events = vec![
        ShredEvent::completed(PathBuf::from("/tmp/a.txt"), at(1431648000), ShredMethod::Gutmann, &Ok(())),
        ShredEvent::completed(
            PathBuf::from("/tmp/b.txt"),
            at(1431648061),
            ShredMethod::Dod,
            &Err(ShredError::Obfuscation("boom".to_string())),
        ),
    ];
    let r = ShredReport::generated(events, at(1431648100));
    let expected = "=== sys-shred Forensic Audit Report ===\n\
Generated at: 2015-05-15 00:01:40 UTC\n\
Total Files:  2\n\
Successes:    1\n\
Failures:     1\n\
========================================\n\n\
[2015-05-15 00:00:00] \"/tmp/a.txt\" - SUCCESS (Gutmann)\n\
[2015-05-15 00:01:01] \"/tmp/b.txt\" - FAILURE (Dod)\n"
        .to_string()
        + "  Error: Metadata Obfuscation Failure: boom\n";
    assert_eq!(r.to_text(), expected);
}

#[test]
fn method_names_match_debug() {
    for m in [ShredMethod::Zero, ShredMethod::Random, ShredMethod::Dod, ShredMethod::Gutmann] {
        assert_eq!(m.name(), format!("{:?}", m));
    }
}

#[test]
fn clock_readings_before_the_epoch_count_backwards() {
    let t = Timestamp::from_clock(true, 1, 500_000_000).unwrap();
    assert_eq!((t.secs(), t.nanos()), (-2, 500_000_000));
    assert_eq!(t.display(), "1969-12-31 23:59:58.500 UTC");
    let u = Timestamp::from_clock(true, 60, 0).unwrap();
    assert_eq!((u.secs(), u.nanos()), (-60, 0));
    let v = Timestamp::from_clock(false, 1431648000, 7).unwrap();
    assert_eq!((v.secs(), v.nanos()), (1431648000, 7));
    match Timestamp::from_clock(false, u64::MAX, 0) {
        Err(ShredError::Io(e)) => assert_eq!(e.to_string(), "system clock reading is outside the representable range"),
        _ => panic!("out-of-range clock accepted"),
    }
}

#[test]
fn now_is_representable() {
    let t = Timestamp::now().unwrap();
    assert!(t.secs() > 1_600_000_000);
    assert!(!t.display().is_empty());
}
