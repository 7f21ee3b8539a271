use sys_shred::cli::args::ShredMethod;
use sys_shred::engine::order::DirEntry;
use sys_shred::engine::{DestroyStep, Destruction, EntryAction, EntryKind, TargetKind};
use sys_shred::{ShredError, Shredder};
use std::path::PathBuf;

fn p(s: &str) -> PathBuf {
    PathBuf::from(s)
}

fn shredder(dry_run: bool, force: bool, trim: bool, exclude: &[&str]) -> Shredder {
    let pats: Vec<String> = exclude.iter().map(|s| s.to_string()).collect();
    Shredder::new(ShredMethod::Random, 1, dry_run, false, trim, force, &pats, false).unwrap()
}

fn entry(path: &str, is_file: bool) -> DirEntry {
    DirEntry { path: p(path), is_file }
}

#[test]
fn new_keeps_the_policy() {
    let pats = vec!["*.log".to_string()];
    let s = Shredder::new(ShredMethod::Gutmann, 4, true, true, false, true, &pats, true).unwrap();
    assert_eq!(s.method(), ShredMethod::Gutmann);
    assert_eq!(s.passes(), 4);
    assert!(s.dry_run() && s.verify() && !s.trim() && s.force() && s.show_progress());
}

#[test]
fn new_rejects_an_unclosed_class() {
    let pats = vec!["*.txt".to_string(), "[abc".to_string(), "{x".to_string()];
    match Shredder::new(ShredMethod::Zero, 1, false, false, false, false, &pats, false) {
        Err(ShredError::Cli(m)) => {
            assert!(m.contains("[abc"), "{}", m);
            assert!(!m.contains("{x"), "{}", m);
        }
        _ => panic!("pattern accepted"),
    }
}

#[test]
fn new_accepts_an_empty_pattern_list() {
    let s = Shredder::new(ShredMethod::Dod, 3, false, false, false, false, &[], false).unwrap();
    assert!(!s.should_exclude(&p("/any/thing.log")));
}

#[test]
fn exclusion_patterns_match_logs_only() {
    let s = shredder(false, true, false, &["*.log"]);
    assert!(s.should_exclude(&p("/tmp/dir/keep_me.log")));
    assert!(!s.should_exclude(&p("/tmp/dir/shred_me.txt")));
    let none = shredder(false, true, false, &[]);
    assert!(!none.should_exclude(&p("/tmp/dir/keep_me.log")));
}

#[test]
fn walk_selects_unexcluded_files() {
    let s = shredder(false, true, false, &["*.log"]);
    let entries = vec![
        entry("/d", false),
        entry("/d/shred_me.txt", true),
        entry("/d/keep_me.log", true),
        entry("/d/sub", false),
        entry("/d/sub/a.bin", true),
    ];
    assert_eq!(s.select_files(&entries), vec![1, 4]);
}

#[test]
fn missing_target_is_refused() {
    let s = shredder(false, false, false, &[]);
    match s.check_target(&p("/nope"), false, false, false) {
        Err(ShredError::InvalidPath(m)) => assert_eq!(m, "Path does not exist: \"/nope\""),
        _ => panic!("missing path accepted"),
    }
}

#[test]
fn confirmation_asked_unless_forced_or_dry() {
    let s = shredder(false, false, false, &[]);
    assert_eq!(
        s.check_target(&p("/d"), true, true, true).unwrap(),
        Some("Are you sure you want to RECURSIVELY destroy all contents in \"/d\"?".to_string())
    );
    assert_eq!(
        s.check_target(&p("/f"), true, false, true).unwrap(),
        Some("Are you sure you want to permanently destroy \"/f\"?".to_string())
    );
    assert_eq!(shredder(false, true, false, &[]).check_target(&p("/f"), true, false, false).unwrap(), None);
    assert_eq!(shredder(true, false, false, &[]).check_target(&p("/f"), true, false, false).unwrap(), None);
}

#[test]
fn declined_confirmation_cancels() {
    assert!(Shredder::confirm(true).is_ok());
    match Shredder::confirm(false) {
        Err(e) => assert_eq!(e.to_string(), "CLI Configuration Error: Operation cancelled by user"),
        Ok(()) => panic!("declined but went on"),
    }
}

#[test]
fn targets_are_classified() {
    assert_eq!(Shredder::classify_target(&p("/f"), false, true, false, false).unwrap(), TargetKind::File);
    assert_eq!(Shredder::classify_target(&p("/d"), false, false, true, true).unwrap(), TargetKind::Directory);
    assert_eq!(Shredder::classify_target(&p("/l"), true, false, true, true).unwrap(), TargetKind::Link);
    assert_eq!(Shredder::classify_target(&p("/l"), true, true, false, false).unwrap(), TargetKind::Link);
    match Shredder::classify_target(&p("/d"), false, false, true, false) {
        Err(ShredError::InvalidPath(m)) => assert_eq!(m, "Target \"/d\" is a directory. Use --recursive."),
        _ => panic!(),
    }
    match Shredder::classify_target(&p("/a\"b"), false, false, false, true) {
        Err(ShredError::InvalidPath(m)) => assert_eq!(m, "Invalid target type: \"/a\\\"b\""),
        _ => panic!(),
    }
    match Shredder::classify_target(&p("/p"), false, false, false, true) {
        Err(ShredError::InvalidPath(m)) => assert_eq!(m, "Invalid target type: \"/p\""),
        _ => panic!(),
    }
}

#[test]
fn entry_plans_follow_the_safety_rules() {
    let s = shredder(false, true, false, &["*.log"]);
    assert_eq!(s.plan_entry(&p("/f.txt"), EntryKind::File, false, false), EntryAction::Destroy);
    assert_eq!(s.plan_entry(&p("/f.txt"), EntryKind::File, true, false), EntryAction::Skip);
    assert_eq!(s.plan_entry(&p("/f.log"), EntryKind::File, false, false), EntryAction::Skip);
    assert_eq!(s.plan_entry(&p("/link"), EntryKind::Symlink, false, false), EntryAction::RemoveLink);
    assert_eq!(s.plan_entry(&p("/link"), EntryKind::Symlink, false, true), EntryAction::Skip);
    assert_eq!(s.plan_entry(&p("/fifo"), EntryKind::Other, false, false), EntryAction::Skip);
    assert_eq!(s.plan_entry(&p("/link.log"), EntryKind::Symlink, false, false), EntryAction::Skip);
    let dry = shredder(true, true, false, &[]);
    assert_eq!(dry.plan_entry(&p("/f.txt"), EntryKind::File, false, false), EntryAction::RecordDryRun);
    assert_eq!(dry.plan_entry(&p("/link"), EntryKind::Symlink, false, false), EntryAction::Skip);
}

#[test]
fn destruction_steps_in_order() {
    assert_eq!(shredder(false, true, false, &[]).destruction_steps(false), vec![DestroyStep::Overwrite, DestroyStep::Obfuscate, DestroyStep::Truncate, DestroyStep::Unlink]);
    assert_eq!(shredder(false, true, true, &[]).destruction_steps(false), vec![DestroyStep::Overwrite, DestroyStep::Obfuscate, DestroyStep::Trim, DestroyStep::Truncate, DestroyStep::Unlink]);
    assert_eq!(shredder(false, true, true, &[]).destruction_steps(true), vec![DestroyStep::Overwrite, DestroyStep::Obfuscate, DestroyStep::Trim, DestroyStep::Truncate]);
    assert!(!DestroyStep::Trim.is_fatal());
    assert!(DestroyStep::Unlink.is_fatal() && DestroyStep::Overwrite.is_fatal());
}

#[test]
fn directories_are_removed_deepest_first() {
    let s = shredder(false, true, false, &[]);
    let entries = vec![
        entry("/d", false),
        entry("/d/a", false),
        entry("/d/a/x.txt", true),
        entry("/d/b", false),
        entry("/d/é", false),
    ];
    // byte lengths: 2, 4, 10, 4, 5 ("é" takes two bytes); ties keep walk order
    assert_eq!(s.removal_order(&entries, false, false, true), vec![2, 4, 1, 3, 0]);
    assert!(s.removal_order(&entries, true, false, true).is_empty());
    assert!(s.removal_order(&entries, false, true, true).is_empty());
    assert!(s.removal_order(&entries, false, false, false).is_empty());
    assert!(shredder(true, true, false, &[]).removal_order(&entries, false, false, true).is_empty());
}

#[test]
fn removal_order_of_many_entries_is_a_sorted_permutation() {
    let s = shredder(false, true, false, &[]);
    let entries: Vec<DirEntry> = (0..200)
        .map(|i| entry(&"x".repeat((i * 37) % 23 + 1), false))
        .collect();
    let order = s.removal_order(&entries, false, false, true);
    let mut seen = order.clone();
    seen.sort();
    assert_eq!(seen, (0..200).collect::<Vec<usize>>());
    for w in order.windows(2) {
        let (a, b) = (entries[w[0]].path.as_os_str().len(), entries[w[1]].path.as_os_str().len());
        assert!(a > b || (a == b && w[0] < w[1]));
    }
}

#[test]
fn failed_trim_is_reported_but_does_not_stop() {
    let s = shredder(false, true, true, &[]);
    let mut d = Destruction::new(&s, false);
    let mut ran = Vec::new();
    while let Some(step) = d.next_step() {
        ran.push(step);
        if step == DestroyStep::Trim {
            d.record(Err(ShredError::Io(std::io::Error::new(std::io::ErrorKind::Other, "no trim"))));
        } else {
            d.record(Ok(()));
        }
    }
    assert_eq!(ran.len(), 5);
    match d.finish() {
        Err(e) => assert_eq!(e.to_string(), "System I/O Failure: no trim"),
        Ok(()) => panic!("trim failure lost"),
    }
}

#[test]
fn failed_overwrite_stops_destruction() {
    let s = shredder(false, true, false, &[]);
    let mut d = Destruction::new(&s, false);
    assert_eq!(d.next_step(), Some(DestroyStep::Overwrite));
    d.record(Err(ShredError::Obfuscation("bad".to_string())));
    assert_eq!(d.next_step(), None);
    match d.finish() {
        Err(ShredError::Obfuscation(m)) => assert_eq!(m, "bad"),
        _ => panic!("failure lost"),
    }
}

#[test]
fn entry_kinds_put_links_first() {
    assert_eq!(EntryKind::classify(true, false, false), EntryKind::Symlink);
    assert_eq!(EntryKind::classify(true, true, false), EntryKind::Symlink);
    assert_eq!(EntryKind::classify(false, true, false), EntryKind::File);
    assert_eq!(EntryKind::classify(false, false, true), EntryKind::Directory);
    assert_eq!(EntryKind::classify(false, false, false), EntryKind::Other);
}
