use sys_shred::cli::args::ShredMethod;
use sys_shred::engine::overwrite::{pass_at, pass_count, PassPattern, PassWriter, BUFFER_SIZE};
use sys_shred::ShredError;

fn plan(method: ShredMethod, passes: u32) -> Vec<PassPattern> {
    (0..pass_count(method, passes)).map(|i| pass_at(method, passes, i)).collect()
}

#[test]
fn zero_method_is_one_zero_pass() {
    assert_eq!(plan(ShredMethod::Zero, 7), vec![PassPattern::Fixed(0x00)]);
}

#[test]
fn random_method_default_is_three_random_passes() {
    assert_eq!(plan(ShredMethod::Random, 3), vec![PassPattern::Random; 3]);
    assert_eq!(plan(ShredMethod::Random, 0), Vec::<PassPattern>::new());
}

#[test]
fn dod_method_is_zeros_ones_random() {
    assert_eq!(
        plan(ShredMethod::Dod, 9),
        vec![PassPattern::Fixed(0x00), PassPattern::Fixed(0xFF), PassPattern::Random]
    );
}

#[test]
fn gutmann_method_has_35_passes_in_order() {
    let p = plan(ShredMethod::Gutmann, 1);
    assert_eq!(p.len(), 35);
    let f = PassPattern::Fixed;
    let c = PassPattern::Cycle;
    let middle = vec![
        f(0x55),
        f(0xAA),
        c(0x92, 0x49, 0x24),
        c(0x49, 0x24, 0x92),
        c(0x24, 0x92, 0x49),
        f(0x00),
        f(0x11),
        f(0x22),
        f(0x33),
        f(0x44),
        f(0x55),
        f(0x66),
        f(0x77),
        f(0x88),
        f(0x99),
        f(0xAA),
        f(0xBB),
        f(0xCC),
        f(0xDD),
        f(0xEE),
        f(0xFF),
        c(0x92, 0x49, 0x24),
        c(0x49, 0x24, 0x92),
        c(0x24, 0x92, 0x49),
        c(0x6D, 0xB6, 0xDB),
        c(0xB6, 0xDB, 0x6D),
        c(0xDB, 0x6D, 0xB6),
    ];
    let mut expected = vec![PassPattern::Random; 4];
    expected.extend(middle);
    expected.extend(vec![PassPattern::Random; 4]);
    assert_eq!(p, expected);
}

/// Writes a whole pass into memory, as the file would receive it.
fn write_pass(pattern: PassPattern, size: u64) -> (PassWriter, Vec<u8>) {
    let mut w = PassWriter::new(pattern, size).unwrap();
    let mut out = Vec::new();
    loop {
        let n = w.next_chunk(false);
        if n == 0 {
            break;
        }
        out.extend_from_slice(&w.buffer()[..n]);
    }
    assert!(w.finish().is_ok());
    (w, out)
}

/// Reads a pass back from memory in the chunks the checker asks for.
fn read_back(w: &PassWriter, data: &[u8]) -> Result<(), ShredError> {
    let mut c = w.read_back();
    let mut pos = 0;
    loop {
        let n = c.next_len(false);
        if n == 0 {
            break;
        }
        c.check_chunk(&data[pos..pos + n])?;
        pos += n;
    }
    c.finish()
}

#[test]
fn cycle_pass_repeats_three_bytes_across_chunks() {
    let (_, out) = write_pass(PassPattern::Cycle(0x92, 0x49, 0x24), 200_000);
    assert_eq!(out.len(), 200_000);
    for (k, b) in out.iter().enumerate() {
        assert_eq!(*b, [0x92, 0x49, 0x24][k % 3], "offset {}", k);
    }
}

#[test]
fn every_pass_reads_back_as_written() {
    for pattern in [PassPattern::Fixed(0xAA), PassPattern::Cycle(0x6D, 0xB6, 0xDB), PassPattern::Random] {
        let (w, out) = write_pass(pattern, 150_001);
        assert!(read_back(&w, &out).is_ok());
    }
}

#[test]
fn random_pass_read_back_detects_a_changed_byte() {
    let (w, mut out) = write_pass(PassPattern::Random, 100_000);
    let was = out[70_000];
    out[70_000] = was ^ 0xFF;
    match read_back(&w, &out) {
        Err(ShredError::Obfuscation(m)) => assert_eq!(
            m,
            format!("Verification failed: Expected 0x{:02X}, found 0x{:02X} at offset 65536", was, was ^ 0xFF)
        ),
        other => panic!("unexpected {:?}", other),
    }
}

#[test]
fn random_passes_differ() {
    let (_, a) = write_pass(PassPattern::Random, 4096);
    let (_, b) = write_pass(PassPattern::Random, 4096);
    assert_ne!(a, b);
}

#[test]
fn cancelled_pass_stops_and_fails() {
    let mut w = PassWriter::new(PassPattern::Fixed(0), 200_000).unwrap();
    assert_eq!(w.next_chunk(false), BUFFER_SIZE);
    assert_eq!(w.next_chunk(true), 0);
    match w.finish() {
        Err(e) => assert_eq!(e.to_string(), "CLI Configuration Error: Operation cancelled by user"),
        Ok(()) => panic!("cancelled pass reported complete"),
    }
    let c = w.read_back();
    assert_eq!(c.next_len(true), 0);
    assert!(c.finish().is_err());
}

#[test]
fn fixed_pass_covers_file_in_buffer_sized_chunks() {
    let mut w = PassWriter::new(PassPattern::Fixed(0xAA), 100_000).unwrap();
    assert!(!w.is_done());
    assert_eq!(w.next_chunk(false), BUFFER_SIZE);
    assert!(w.buffer().iter().all(|&b| b == 0xAA));
    assert_eq!(w.next_chunk(false), 100_000 - 65_536);
    assert!(w.is_done());
    assert_eq!(w.next_chunk(false), 0);
}

#[test]
fn empty_file_needs_no_chunk() {
    let mut w = PassWriter::new(PassPattern::Random, 0).unwrap();
    assert!(w.is_done());
    assert_eq!(w.next_chunk(false), 0);
}

#[test]
fn random_pass_fills_only_the_chunk() {
    let mut w = PassWriter::new(PassPattern::Random, 64).unwrap();
    assert_eq!(w.next_chunk(false), 64);
    assert_eq!(w.buffer().len(), BUFFER_SIZE);
    // The part of the buffer past the chunk stays as it was (zeroed).
    assert!(w.buffer()[64..].iter().all(|&b| b == 0));
    // 64 random bytes being all zero has probability 2^-512.
    assert!(w.buffer()[..64].iter().any(|&b| b != 0));
}

#[test]
fn verifier_accepts_matching_chunks() {
    let w = PassWriter::new(PassPattern::Fixed(0xFF), 70_000).unwrap();
    let mut v = w.read_back();
    assert_eq!(v.next_len(false), 65_536);
    assert!(v.check_chunk(&vec![0xFF; 65_536]).is_ok());
    assert_eq!(v.next_len(false), 70_000 - 65_536);
    assert!(v.check_chunk(&vec![0xFF; 70_000 - 65_536]).is_ok());
    assert_eq!(v.next_len(false), 0);
    assert!(v.finish().is_ok());
}

#[test]
fn verifier_reports_first_mismatch_with_chunk_offset() {
    let w = PassWriter::new(PassPattern::Fixed(0xFF), 70_000).unwrap();
    let mut v = w.read_back();
    assert!(v.check_chunk(&vec![0xFF; 65_536]).is_ok());
    let mut chunk = vec![0xFF; 100];
    chunk[3] = 0x0A;
    chunk[7] = 0x00;
    match v.check_chunk(&chunk) {
        Err(ShredError::Obfuscation(m)) => assert_eq!(
            m,
            "Verification failed: Expected 0xFF, found 0x0A at offset 65536"
        ),
        other => panic!("unexpected {:?}", other),
    }
}

#[test]
fn verifier_mismatch_in_first_chunk() {
    let w = PassWriter::new(PassPattern::Cycle(0x24, 0x92, 0x49), 10).unwrap();
    let mut v = w.read_back();
    match v.check_chunk(&[0x24, 0x92, 0xB6, 0x24, 0x92]) {
        Err(e) => assert_eq!(
            e.to_string(),
            "Metadata Obfuscation Failure: Verification failed: Expected 0x49, found 0xB6 at offset 0"
        ),
        Ok(()) => panic!("mismatch not found"),
    }
}
