//! Randomness: seeds drawn from the operating system, and the deterministic streams of
//! `rand`'s `StdRng` expanded from them.
use vstd::prelude::*;
use rand::distributions::DistString;
use rand::RngCore;
use rand::SeedableRng;
use crate::error::{ShredError, ShredResult};

verus! {

/// The length of a `StdRng` seed in bytes.
pub const SEED_LEN: usize = 32;

/// Fills `buffer` from the operating system's generator (`RngCore::try_fill_bytes` of
/// `rand::rngs::OsRng`), which reports failure instead of panicking.
///
/// Claims only that the buffer keeps its length; the bytes rest on chance, and on
/// failure the text is that of the error returned.
#[verifier::external_body]
fn os_random_fill(buffer: &mut Vec<u8>) -> (r: Result<(), String>)
    ensures
        final(buffer).len() == old(buffer).len(),
{
    match rand::rngs::OsRng.try_fill_bytes(&mut buffer[..]) {
        Ok(()) => Ok(()),
        Err(e) => Err(e.to_string()),
    }
}

/// `len` fresh random bytes from the operating system; failing to obtain them is an
/// entropy error carrying the system's message.
pub fn draw_random_bytes(len: usize) -> (r: ShredResult<Vec<u8>>)
    ensures
        r matches Ok(v) ==> v.len() == len,
        r matches Err(e) ==> e is Entropy,
{
    let mut buffer = vec![0u8; len];
    match os_random_fill(&mut buffer) {
        Ok(()) => Ok(buffer),
        Err(m) => Err(ShredError::Entropy(m)),
    }
}

/// The first `len` bytes that `rand::rngs::StdRng::from_seed(seed)` produces through
/// `RngCore::fill_bytes`.
pub uninterp spec fn seeded_random_bytes(seed: Seq<u8>, len: nat) -> Seq<u8>;

/// The string of `len` characters that `rand::distributions::Alphanumeric::sample_string`
/// draws from `rand::rngs::StdRng::from_seed(seed)`.
pub uninterp spec fn seeded_alphanumeric(seed: Seq<u8>, len: nat) -> Seq<char>;

/// Whether a character is an ASCII letter or digit.
pub open spec fn is_ascii_alphanumeric(c: char) -> bool {
    ('0' <= c <= '9') || ('A' <= c <= 'Z') || ('a' <= c <= 'z')
}

/// Fills the first `len` bytes of `buffer` from a generator seeded with `seed`
/// (`StdRng::from_seed`, then `RngCore::fill_bytes`).
///
/// Claims: the bytes are `seeded_random_bytes(seed, len)`, a function of the seed and the
/// length (StdRng is ChaCha12 in this version of `rand`, deterministic from its seed);
/// the rest of the buffer and its length are unchanged.
#[verifier::external_body]
pub(crate) fn seeded_fill(seed: &Vec<u8>, buffer: &mut Vec<u8>, len: usize)
    requires
        seed.len() == SEED_LEN,
        len <= old(buffer).len(),
    ensures
        final(buffer).len() == old(buffer).len(),
        final(buffer)@.subrange(0, len as int) == seeded_random_bytes(seed@, len as nat),
        forall|i: int| len <= i < old(buffer).len() ==> final(buffer)[i] == old(buffer)[i],
{
    let mut key = [0u8; SEED_LEN];
    key.copy_from_slice(&seed[..]);
    rand::rngs::StdRng::from_seed(key).fill_bytes(&mut buffer[..len]);
}

/// Draws `len` characters from the `Alphanumeric` distribution of a generator seeded with
/// `seed` (`StdRng::from_seed`, then `DistString::sample_string`).
///
/// Claims: the text is `seeded_alphanumeric(seed, len)`, of `len` ASCII letters and digits
/// (the distribution draws from `A-Z`, `a-z` and `0-9` only).
#[verifier::external_body]
pub(crate) fn seeded_alphanumeric_string(seed: &Vec<u8>, len: usize) -> (s: String)
    requires
        seed.len() == SEED_LEN,
    ensures
        s@ == seeded_alphanumeric(seed@, len as nat),
        s@.len() == len,
        forall|i: int| 0 <= i < len ==> is_ascii_alphanumeric(#[trigger] s@[i]),
{
    let mut key = [0u8; SEED_LEN];
    key.copy_from_slice(&seed[..]);
    rand::distributions::Alphanumeric.sample_string(&mut rand::rngs::StdRng::from_seed(key), len)
}

} // verus!
