use sys_shred::text::{digit, push_decimal, push_hex_byte};
use sys_shred::ShredError;

fn decimal(n: u64) -> String {
    let mut s = String::new();
    push_decimal(&mut s, n);
    s
}

fn hex(b: u8) -> String {
    let mut s = String::from("0x");
    push_hex_byte(&mut s, b);
    s
}

#[test]
fn decimal_rendering_matches_display() {
    for n in [0u64, 7, 10, 99, 100, 65_536, 1_234_567_890, u64::MAX] {
        assert_eq!(decimal(n), n.to_string());
    }
}

#[test]
fn hex_rendering_is_two_upper_case_digits() {
    assert_eq!(hex(0x00), "0x00");
    assert_eq!(hex(0x0A), "0x0A");
    assert_eq!(hex(0xDB), "0xDB");
    for b in 0..=255u8 {
        assert_eq!(hex(b), format!("0x{:02X}", b));
    }
}

#[test]
fn digits_cover_base_sixteen() {
    assert_eq!(digit(0), '0');
    assert_eq!(digit(9), '9');
    assert_eq!(digit(10), 'A');
    assert_eq!(digit(15), 'F');
}

#[test]
fn error_texts_carry_kind_prefix() {
    assert_eq!(ShredError::Cli("x".to_string()).to_string(), "CLI Configuration Error: x");
    assert_eq!(ShredError::Entropy("y".to_string()).to_string(), "Cryptographic Entropy Error: y");
    assert_eq!(ShredError::InvalidPath("z".to_string()).to_string(), "Inaccessible Path Error: z");
    assert_eq!(ShredError::Obfuscation("w".to_string()).to_string(), "Metadata Obfuscation Failure: w");
    let io = std::io::Error::new(std::io::ErrorKind::NotFound, "gone");
    assert_eq!(ShredError::Io(io).to_string(), "System I/O Failure: gone");
}
