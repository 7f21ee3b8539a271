//! Name scrubbing: the random names a file is renamed to before it is removed.
use vstd::prelude::*;
use crate::engine::entropy::{draw_random_bytes, is_ascii_alphanumeric, seeded_alphanumeric, seeded_alphanumeric_string, SEED_LEN};
use crate::error::{ShredError, ShredResult};

verus! {

/// The number of characters in a random file name.
pub const NAME_LEN: usize = 16;

/// How many random names are tried before renaming gives up.
pub const RENAME_ATTEMPTS: u32 = 5;

/// The decision after one random name was drawn.
#[derive(Debug)]
pub enum RenameStep {
    /// The name is free: rename the file to it.
    Rename,
    /// The name is taken: draw another.
    TryAnother,
    /// Every attempt collided: renaming fails with this error.
    GiveUp(ShredError),
}

/// Scrubs the metadata that could reveal a destroyed file.
pub struct MetadataHandler;

impl MetadataHandler {
    /// The file name drawn from a seed: sixteen characters of the `Alphanumeric`
    /// distribution of a generator seeded with `seed`.
    pub fn name_from_seed(seed: &Vec<u8>) -> (name: String)
        requires
            seed.len() == SEED_LEN,
        ensures
            name@ == seeded_alphanumeric(seed@, NAME_LEN as nat),
            name@.len() == NAME_LEN,
            forall|i: int| 0 <= i < NAME_LEN ==> is_ascii_alphanumeric(#[trigger] name@[i]),
    {
        seeded_alphanumeric_string(seed, NAME_LEN)
    }

    /// A fresh random file name of sixteen ASCII letters and digits, drawn from a seed that
    /// the operating system provides; failing to obtain the seed is an entropy error.
    pub fn random_name() -> (r: ShredResult<String>)
        ensures
            r matches Ok(name) ==> {
                &&& name@.len() == NAME_LEN
                &&& forall|i: int| 0 <= i < NAME_LEN ==> is_ascii_alphanumeric(#[trigger] name@[i])
                &&& exists|seed: Seq<u8>| seed.len() == SEED_LEN && name@ == seeded_alphanumeric(seed, NAME_LEN as nat)
            },
            r matches Err(e) ==> e is Entropy,
    {
        let seed = draw_random_bytes(SEED_LEN)?;
        let name = MetadataHandler::name_from_seed(&seed);
        assert(seed@.len() == SEED_LEN && name@ == seeded_alphanumeric(seed@, NAME_LEN as nat));
        Ok(name)
    }

    /// What to do after the `attempt`-th name (counting from zero) was drawn and found
    /// `taken` or free: rename to a free name, draw again while attempts remain, give up
    /// after the last one.
    pub fn rename_step(attempt: u32, taken: bool) -> (step: RenameStep)
        requires
            attempt < RENAME_ATTEMPTS,
        ensures
            !taken ==> step is Rename,
            taken && attempt + 1 < RENAME_ATTEMPTS ==> step is TryAnother,
            taken && attempt + 1 == RENAME_ATTEMPTS ==> (step matches RenameStep::GiveUp(
                ShredError::Obfuscation(m),
            ) && m@ == "Failed to generate a unique random filename after multiple attempts"@),
    {
        if !taken {
            RenameStep::Rename
        } else if attempt + 1 < RENAME_ATTEMPTS {
            RenameStep::TryAnother
        } else {
            RenameStep::GiveUp(
                ShredError::Obfuscation(
                    String::from_str(
                        "Failed to generate a unique random filename after multiple attempts",
                    ),
                ),
            )
        }
    }
}

} // verus!
