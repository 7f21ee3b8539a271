//! The overwrite engine's plan: which patterns are written, in which chunks,
//! and how a written pass is checked when it is read back.
use vstd::prelude::*;
use crate::cli::args::ShredMethod;
use crate::engine::entropy::{draw_random_bytes, seeded_fill, seeded_random_bytes};
use crate::error::{ShredError, ShredResult};
use crate::text::{decimal_text, hex_byte_text, push_decimal, push_hex_byte};

verus! {

/// The size of the buffer that one write or read covers at most.
pub const BUFFER_SIZE: usize = 65536;

/// The length of the random seed of a pass; each chunk's generator seed appends the
/// chunk's index (eight bytes) to it.
pub const PASS_SEED_LEN: usize = 24;

/// What one overwrite pass writes over the whole file.
#[derive(Clone, Copy, Debug, PartialEq, Eq, Structural)]
pub enum PassPattern {
    /// Every byte set to the given value.
    Fixed(u8),
    /// The three bytes repeated from the start of the file: byte `k` is the `k % 3`-th.
    Cycle(u8, u8, u8),
    /// Fresh random bytes.
    Random,
}

/// The 27 patterns of the Gutmann method between its random passes (passes 5 to 31).
pub open spec fn gutmann_middle() -> Seq<PassPattern> {
    seq![
        PassPattern::Fixed(0x55),
        PassPattern::Fixed(0xAA),
        PassPattern::Cycle(0x92, 0x49, 0x24),
        PassPattern::Cycle(0x49, 0x24, 0x92),
        PassPattern::Cycle(0x24, 0x92, 0x49),
        PassPattern::Fixed(0x00),
        PassPattern::Fixed(0x11),
        PassPattern::Fixed(0x22),
        PassPattern::Fixed(0x33),
        PassPattern::Fixed(0x44),
        PassPattern::Fixed(0x55),
        PassPattern::Fixed(0x66),
        PassPattern::Fixed(0x77),
        PassPattern::Fixed(0x88),
        PassPattern::Fixed(0x99),
        PassPattern::Fixed(0xAA),
        PassPattern::Fixed(0xBB),
        PassPattern::Fixed(0xCC),
        PassPattern::Fixed(0xDD),
        PassPattern::Fixed(0xEE),
        PassPattern::Fixed(0xFF),
        PassPattern::Cycle(0x92, 0x49, 0x24),
        PassPattern::Cycle(0x49, 0x24, 0x92),
        PassPattern::Cycle(0x24, 0x92, 0x49),
        PassPattern::Cycle(0x6D, 0xB6, 0xDB),
        PassPattern::Cycle(0xB6, 0xDB, 0x6D),
        PassPattern::Cycle(0xDB, 0x6D, 0xB6),
    ]
}

/// `n` random passes.
pub open spec fn random_passes(n: nat) -> Seq<PassPattern> {
    Seq::new(n, |i: int| PassPattern::Random)
}

/// The sequence of passes that a method performs; `passes` counts for the random method only.
pub open spec fn pass_plan(method: ShredMethod, passes: u32) -> Seq<PassPattern> {
    match method {
        ShredMethod::Zero => seq![PassPattern::Fixed(0x00)],
        ShredMethod::Random => random_passes(passes as nat),
        ShredMethod::Dod => seq![
            PassPattern::Fixed(0x00),
            PassPattern::Fixed(0xFF),
            PassPattern::Random,
        ],
        ShredMethod::Gutmann => random_passes(4) + gutmann_middle() + random_passes(4),
    }
}

/// The number of passes that `method` performs.
pub fn pass_count(method: ShredMethod, passes: u32) -> (n: u64)
    ensures
        n == pass_plan(method, passes).len(),
{
    match method {
        ShredMethod::Zero => 1,
        ShredMethod::Random => passes as u64,
        ShredMethod::Dod => 3,
        ShredMethod::Gutmann => 35,
    }
}

/// The `k`-th of the Gutmann method's middle passes.
fn gutmann_middle_pass(k: u64) -> (p: PassPattern)
    requires
        k < 27,
    ensures
        p == gutmann_middle()[k as int],
{
    match k {
        0 => PassPattern::Fixed(0x55),
        1 => PassPattern::Fixed(0xAA),
        2 => PassPattern::Cycle(0x92, 0x49, 0x24),
        3 => PassPattern::Cycle(0x49, 0x24, 0x92),
        4 => PassPattern::Cycle(0x24, 0x92, 0x49),
        5 => PassPattern::Fixed(0x00),
        6 => PassPattern::Fixed(0x11),
        7 => PassPattern::Fixed(0x22),
        8 => PassPattern::Fixed(0x33),
        9 => PassPattern::Fixed(0x44),
        10 => PassPattern::Fixed(0x55),
        11 => PassPattern::Fixed(0x66),
        12 => PassPattern::Fixed(0x77),
        13 => PassPattern::Fixed(0x88),
        14 => PassPattern::Fixed(0x99),
        15 => PassPattern::Fixed(0xAA),
        16 => PassPattern::Fixed(0xBB),
        17 => PassPattern::Fixed(0xCC),
        18 => PassPattern::Fixed(0xDD),
        19 => PassPattern::Fixed(0xEE),
        20 => PassPattern::Fixed(0xFF),
        21 => PassPattern::Cycle(0x92, 0x49, 0x24),
        22 => PassPattern::Cycle(0x49, 0x24, 0x92),
        23 => PassPattern::Cycle(0x24, 0x92, 0x49),
        24 => PassPattern::Cycle(0x6D, 0xB6, 0xDB),
        25 => PassPattern::Cycle(0xB6, 0xDB, 0x6D),
        _ => PassPattern::Cycle(0xDB, 0x6D, 0xB6),
    }
}

/// The `i`-th pass that `method` performs.
pub fn pass_at(method: ShredMethod, passes: u32, i: u64) -> (p: PassPattern)
    requires
        i < pass_plan(method, passes).len(),
    ensures
        p == pass_plan(method, passes)[i as int],
{
    match method {
        ShredMethod::Zero => PassPattern::Fixed(0x00),
        ShredMethod::Random => PassPattern::Random,
        ShredMethod::Dod => {
            if i == 0 {
                PassPattern::Fixed(0x00)
            } else if i == 1 {
                PassPattern::Fixed(0xFF)
            } else {
                PassPattern::Random
            }
        },
        ShredMethod::Gutmann => {
            let ghost plan = pass_plan(method, passes);
            assert(plan == random_passes(4) + gutmann_middle() + random_passes(4));
            if i < 4 {
                PassPattern::Random
            } else if i < 31 {
                let p = gutmann_middle_pass(i - 4);
                assert(plan[i as int] == gutmann_middle()[i - 4]);
                p
            } else {
                assert(plan[i as int] == random_passes(4)[i - 31]);
                PassPattern::Random
            }
        },
    }
}

/// How many passes each method performs: one zero pass, `passes` random passes,
/// three DoD passes, thirty-five Gutmann passes.
pub proof fn lemma_pass_counts(passes: u32)
    ensures
        pass_plan(ShredMethod::Zero, passes).len() == 1,
        pass_plan(ShredMethod::Random, passes).len() == passes,
        pass_plan(ShredMethod::Dod, passes).len() == 3,
        pass_plan(ShredMethod::Gutmann, passes).len() == 35,
{
}

/// The requested number of passes changes the plan of the random method only.
pub proof fn lemma_passes_only_steer_random(method: ShredMethod, p1: u32, p2: u32)
    requires
        method != ShredMethod::Random,
    ensures
        pass_plan(method, p1) == pass_plan(method, p2),
{
}

/// The random method writes nothing but random data, and the Gutmann method
/// opens and closes with four random passes.
pub proof fn lemma_random_passes(passes: u32)
    ensures
        forall|i: int| 0 <= i < passes ==> #[trigger] pass_plan(ShredMethod::Random, passes)[i]
            == PassPattern::Random,
        forall|i: int|
            (0 <= i < 4 || 31 <= i < 35) ==> #[trigger] pass_plan(ShredMethod::Gutmann, passes)[i]
                == PassPattern::Random,
{
    let plan = pass_plan(ShredMethod::Gutmann, passes);
    assert forall|i: int| (0 <= i < 4 || 31 <= i < 35) implies #[trigger] plan[i]
        == PassPattern::Random by {
        if i >= 31 {
            assert(plan[i] == random_passes(4)[i - 31]);
        }
    }
}

/// The byte a deterministic pattern puts at `offset` in the file.
pub open spec fn pattern_byte(p: PassPattern, offset: nat) -> u8 {
    match p {
        PassPattern::Fixed(b) => b,
        PassPattern::Cycle(a, b, c) => if offset % 3 == 0 {
            a
        } else if offset % 3 == 1 {
            b
        } else {
            c
        },
        PassPattern::Random => 0,
    }
}

/// The `j`-th little-endian byte of `k`.
pub open spec fn le_byte(k: u64, j: u64) -> u8 {
    ((k >> (8 * j)) & 0xff) as u8
}

/// The generator seed of chunk number `index` of a random pass: the pass seed followed
/// by the eight little-endian bytes of the index.
pub open spec fn chunk_seed(base: Seq<u8>, index: u64) -> Seq<u8> {
    base + Seq::new(8, |j: int| le_byte(index, j as u64))
}

/// The bytes a pass writes in its chunk number `index`, which starts at `offset` and holds
/// `len` bytes: the pattern's bytes at those offsets, or for a random pass the stream of
/// the chunk's seed.
pub open spec fn chunk_bytes(p: PassPattern, base: Seq<u8>, index: u64, offset: nat, len: nat) -> Seq<u8> {
    match p {
        PassPattern::Random => seeded_random_bytes(chunk_seed(base, index), len),
        _ => Seq::new(len, |i: int| pattern_byte(p, (offset + i) as nat)),
    }
}

/// The byte a deterministic pattern puts at `offset`.
fn byte_at(p: PassPattern, offset: u64) -> (b: u8)
    ensures
        b == pattern_byte(p, offset as nat),
{
    match p {
        PassPattern::Fixed(b) => b,
        PassPattern::Cycle(a, b, c) => {
            let r = offset % 3;
            if r == 0 {
                a
            } else if r == 1 {
                b
            } else {
                c
            }
        },
        PassPattern::Random => 0,
    }
}

/// The generator seed of a chunk of a random pass.
fn make_chunk_seed(base: &Vec<u8>, index: u64) -> (s: Vec<u8>)
    ensures
        s@ == chunk_seed(base@, index),
        s.len() == base.len() + 8,
{
    let mut s = base.clone();
    let mut j: u64 = 0;
    while j < 8
        invariant
            j <= 8,
            s@ == base@ + Seq::new(j as nat, |i: int| le_byte(index, i as u64)),
        decreases 8 - j,
    {
        let b: u8 = ((index >> (8 * j)) & 0xff) as u8;
        s.push(b);
        j = j + 1;
        assert(s@ =~= base@ + Seq::new(j as nat, |i: int| le_byte(index, i as u64)));
    }
    assert(s@ =~= chunk_seed(base@, index));
    s
}

/// The message of a pass that stopped before covering the file, on cancellation.
pub open spec fn cancelled_text() -> Seq<char> {
    "Operation cancelled by user"@
}

/// The length of the next chunk when `remaining` bytes are left and a chunk holds at most `buffer_size`.
pub open spec fn chunk_len(remaining: nat, buffer_size: nat) -> nat {
    if remaining < buffer_size {
        remaining
    } else {
        buffer_size
    }
}

/// The lengths of the successive chunks that cover `remaining` bytes.
pub open spec fn chunk_plan(remaining: nat, buffer_size: nat) -> Seq<nat>
    decreases remaining,
{
    if remaining == 0 || buffer_size == 0 {
        seq![]
    } else {
        seq![chunk_len(remaining, buffer_size)] + chunk_plan(
            (remaining - chunk_len(remaining, buffer_size)) as nat,
            buffer_size,
        )
    }
}

/// The sum of a sequence of lengths.
pub open spec fn total_len(s: Seq<nat>) -> nat
    decreases s.len(),
{
    if s.len() == 0 {
        0
    } else {
        s[0] + total_len(s.drop_first())
    }
}

/// A pass covers the file exactly: its chunks add up to the file's size,
/// and each chunk is non-empty and fits the buffer.
pub proof fn lemma_chunks_cover_file(remaining: nat, buffer_size: nat)
    requires
        buffer_size > 0,
    ensures
        total_len(chunk_plan(remaining, buffer_size)) == remaining,
        forall|i: int|
            0 <= i < chunk_plan(remaining, buffer_size).len() ==> 0 < #[trigger] chunk_plan(
                remaining,
                buffer_size,
            )[i] <= buffer_size,
    decreases remaining,
{
    if remaining > 0 {
        let c = chunk_len(remaining, buffer_size);
        let rest = (remaining - c) as nat;
        lemma_chunks_cover_file(rest, buffer_size);
        let plan = chunk_plan(remaining, buffer_size);
        assert(plan.drop_first() =~= chunk_plan(rest, buffer_size));
        assert forall|i: int| 0 <= i < plan.len() implies 0 < #[trigger] plan[i]
            <= buffer_size by {
            if i > 0 {
                assert(plan[i] == chunk_plan(rest, buffer_size)[i - 1]);
            }
        }
    }
}

/// Writes one pass over a file of known size: hands out, chunk by chunk,
/// the bytes that go to the file next.
pub struct PassWriter {
    pattern: PassPattern,
    buffer: Vec<u8>,
    file_size: u64,
    written: u64,
    chunks: u64,
    seed: Vec<u8>,
}

impl PassWriter {
    /// The pattern this pass writes.
    pub closed spec fn pattern(&self) -> PassPattern {
        self.pattern
    }

    /// The size of the file the pass covers.
    pub closed spec fn file_size(&self) -> nat {
        self.file_size as nat
    }

    /// The number of bytes handed out so far.
    pub closed spec fn written(&self) -> nat {
        self.written as nat
    }

    /// The number of chunks handed out so far.
    pub closed spec fn chunks(&self) -> u64 {
        self.chunks
    }

    /// The seed of a random pass (empty for other patterns).
    pub closed spec fn seed(&self) -> Seq<u8> {
        self.seed@
    }

    /// The bytes of the current chunk buffer.
    pub closed spec fn buffer_view(&self) -> Seq<u8> {
        self.buffer@
    }

    /// The writer's internal consistency.
    pub closed spec fn wf(&self) -> bool {
        &&& self.buffer.len() == BUFFER_SIZE
        &&& self.written <= self.file_size
        &&& self.chunks <= self.written
        &&& (self.pattern is Random ==> self.seed.len() == PASS_SEED_LEN)
        &&& (self.pattern matches PassPattern::Fixed(b) ==> forall|i: int|
            0 <= i < self.buffer.len() ==> self.buffer[i] == b)
    }

    /// Starts a pass of `pattern` over a file of `file_size` bytes. A random pass draws its
    /// seed from the operating system, and fails with an entropy error when it cannot.
    pub fn new(pattern: PassPattern, file_size: u64) -> (r: ShredResult<PassWriter>)
        ensures
            !(pattern is Random) ==> r is Ok,
            r matches Err(e) ==> pattern is Random && e is Entropy,
            r matches Ok(w) ==> {
                &&& w.wf()
                &&& w.pattern() == pattern
                &&& w.file_size() == file_size
                &&& w.written() == 0
                &&& w.chunks() == 0
                &&& w.buffer_view().len() == BUFFER_SIZE
                &&& pattern matches PassPattern::Fixed(b) ==> forall|i: int|
                    0 <= i < BUFFER_SIZE ==> w.buffer_view()[i] == b
            },
    {
        match pattern {
            PassPattern::Fixed(b) => {
                let buffer = vec![b; BUFFER_SIZE];
                Ok(PassWriter { pattern, buffer, file_size, written: 0, chunks: 0, seed: Vec::new() })
            },
            PassPattern::Cycle(_, _, _) => {
                let buffer = vec![0u8; BUFFER_SIZE];
                Ok(PassWriter { pattern, buffer, file_size, written: 0, chunks: 0, seed: Vec::new() })
            },
            PassPattern::Random => {
                let seed = draw_random_bytes(PASS_SEED_LEN)?;
                let buffer = vec![0u8; BUFFER_SIZE];
                Ok(PassWriter { pattern, buffer, file_size, written: 0, chunks: 0, seed })
            },
        }
    }

    /// Whether the whole file has been handed out.
    pub fn is_done(&self) -> (b: bool)
        requires
            self.wf(),
        ensures
            b == (self.written() == self.file_size()),
    {
        self.written == self.file_size
    }

    /// Prepares the next chunk and returns its length: zero once the file is covered, and
    /// zero without advancing once the session is cancelled. The chunk is the first `len`
    /// bytes of `buffer()`, which hold `chunk_bytes` of the pass at this point.
    pub fn next_chunk(&mut self, cancelled: bool) -> (len: usize)
        requires
            old(self).wf(),
        ensures
            final(self).wf(),
            final(self).pattern() == old(self).pattern(),
            final(self).file_size() == old(self).file_size(),
            final(self).seed() == old(self).seed(),
            final(self).buffer_view().len() == BUFFER_SIZE,
            cancelled ==> len == 0 && final(self).written() == old(self).written()
                && final(self).chunks() == old(self).chunks(),
            !cancelled ==> {
                &&& len == chunk_len(
                    (old(self).file_size() - old(self).written()) as nat,
                    BUFFER_SIZE as nat,
                )
                &&& final(self).written() == old(self).written() + len
                &&& final(self).chunks() == old(self).chunks() + if len > 0 {
                    1int
                } else {
                    0int
                }
                &&& final(self).buffer_view().subrange(0, len as int) == chunk_bytes(
                    old(self).pattern(),
                    old(self).seed(),
                    old(self).chunks(),
                    old(self).written(),
                    len as nat,
                )
            },
            final(self).pattern() matches PassPattern::Fixed(b) ==> forall|i: int|
                0 <= i < BUFFER_SIZE ==> final(self).buffer_view()[i] == b,
    {
        if cancelled {
            return 0;
        }
        let remaining = self.file_size - self.written;
        let len: usize = if remaining < BUFFER_SIZE as u64 {
            remaining as usize
        } else {
            BUFFER_SIZE
        };
        match self.pattern {
            PassPattern::Fixed(b) => {
                assert(self.buffer@.subrange(0, len as int) =~= chunk_bytes(
                    self.pattern,
                    self.seed@,
                    self.chunks,
                    self.written as nat,
                    len as nat,
                ));
            },
            PassPattern::Cycle(_, _, _) => {
                let mut i: usize = 0;
                while i < len
                    invariant
                        i <= len <= BUFFER_SIZE,
                        self.buffer.len() == BUFFER_SIZE,
                        self.written + len <= self.file_size,
                        self.pattern is Cycle,
                        forall|k: int| 0 <= k < i ==> #[trigger] self.buffer@[k] == pattern_byte(self.pattern, (self.written + k) as nat),
                        self.written <= self.file_size,
                        self.chunks <= self.written,
                        self.pattern == old(self).pattern,
                        self.written == old(self).written,
                        self.chunks == old(self).chunks,
                        self.file_size == old(self).file_size,
                        self.seed == old(self).seed,
                    decreases len - i,
                {
                    let b = byte_at(self.pattern, self.written + i as u64);
                    self.buffer.set(i, b);
                    i = i + 1;
                }
                assert(self.buffer@.subrange(0, len as int) =~= chunk_bytes(
                    self.pattern,
                    self.seed@,
                    self.chunks,
                    self.written as nat,
                    len as nat,
                ));
            },
            PassPattern::Random => {
                let seed = make_chunk_seed(&self.seed, self.chunks);
                seeded_fill(&seed, &mut self.buffer, len);
            },
        }
        self.written = self.written + len as u64;
        if len > 0 {
            self.chunks = self.chunks + 1;
        }
        len
    }

    /// The chunk buffer; the chunk just prepared is its first `len` bytes.
    pub fn buffer(&self) -> (b: &Vec<u8>)
        ensures
            b@ == self.buffer_view(),
    {
        &self.buffer
    }

    /// The outcome of the pass: success once the whole file was handed out, a cancellation
    /// error if it stopped short.
    pub fn finish(&self) -> (r: ShredResult<()>)
        requires
            self.wf(),
        ensures
            r is Ok <==> self.written() == self.file_size(),
            r matches Err(e) ==> (e matches ShredError::Cli(m) && m@ == cancelled_text()),
    {
        if self.written == self.file_size {
            Ok(())
        } else {
            Err(ShredError::Cli(String::from_str("Operation cancelled by user")))
        }
    }

    /// A verifier that reads this pass back: same pattern, seed and file size.
    pub fn read_back(&self) -> (v: PassVerifier)
        requires
            self.wf(),
        ensures
            v.wf(),
            v.pattern() == self.pattern(),
            v.seed() == self.seed(),
            v.file_size() == self.file_size(),
            v.checked() == 0,
            v.chunks() == 0,
    {
        PassVerifier {
            pattern: self.pattern,
            file_size: self.file_size,
            checked: 0,
            chunks: 0,
            seed: self.seed.clone(),
            expected: vec![0u8; BUFFER_SIZE],
        }
    }
}

/// The message that reports the first byte found to differ from what the pass wrote.
/// `offset` is where the chunk that holds the byte starts.
pub open spec fn mismatch_text(expected: u8, found: u8, offset: nat) -> Seq<char> {
    "Verification failed: Expected 0x"@ + hex_byte_text(expected) + ", found 0x"@
        + hex_byte_text(found) + " at offset "@ + decimal_text(offset)
}

/// Reads back a pass, chunk by chunk, and checks every byte against what the pass wrote.
pub struct PassVerifier {
    pattern: PassPattern,
    file_size: u64,
    checked: u64,
    chunks: u64,
    seed: Vec<u8>,
    expected: Vec<u8>,
}

impl PassVerifier {
    /// The pattern of the pass being checked.
    pub closed spec fn pattern(&self) -> PassPattern {
        self.pattern
    }

    /// The seed of the random pass being checked.
    pub closed spec fn seed(&self) -> Seq<u8> {
        self.seed@
    }

    /// The size of the file being checked.
    pub closed spec fn file_size(&self) -> nat {
        self.file_size as nat
    }

    /// The number of bytes checked so far.
    pub closed spec fn checked(&self) -> nat {
        self.checked as nat
    }

    /// The number of chunks checked so far.
    pub closed spec fn chunks(&self) -> u64 {
        self.chunks
    }

    /// The verifier's internal consistency.
    pub closed spec fn wf(&self) -> bool {
        &&& self.checked <= self.file_size
        &&& self.chunks <= self.checked
        &&& self.expected.len() == BUFFER_SIZE
        &&& (self.pattern is Random ==> self.seed.len() == PASS_SEED_LEN)
    }

    /// The length of the next chunk to read: zero once the whole file is checked, and zero
    /// once the session is cancelled.
    pub fn next_len(&self, cancelled: bool) -> (len: usize)
        requires
            self.wf(),
        ensures
            cancelled ==> len == 0,
            !cancelled ==> len == chunk_len((self.file_size() - self.checked()) as nat, BUFFER_SIZE as nat),
    {
        if cancelled {
            return 0;
        }
        let remaining = self.file_size - self.checked;
        if remaining < BUFFER_SIZE as u64 {
            remaining as usize
        } else {
            BUFFER_SIZE
        }
    }

    /// Checks the chunk just read against the bytes the pass wrote there. On success the
    /// chunk counts as checked; at the first byte that differs the check fails and names
    /// both bytes and the offset where the chunk starts.
    pub fn check_chunk(&mut self, chunk: &[u8]) -> (r: Result<(), ShredError>)
        requires
            old(self).wf(),
            old(self).checked() + chunk@.len() <= old(self).file_size(),
            chunk@.len() <= BUFFER_SIZE,
        ensures
            final(self).wf(),
            final(self).pattern() == old(self).pattern(),
            final(self).seed() == old(self).seed(),
            final(self).file_size() == old(self).file_size(),
            r is Ok <==> chunk@ == chunk_bytes(
                old(self).pattern(),
                old(self).seed(),
                old(self).chunks(),
                old(self).checked(),
                chunk@.len(),
            ),
            r is Ok ==> final(self).checked() == old(self).checked() + chunk@.len()
                && final(self).chunks() == old(self).chunks() + if chunk@.len() > 0 {
                1int
            } else {
                0int
            },
            r is Err ==> final(self).checked() == old(self).checked() && final(self).chunks()
                == old(self).chunks(),
            r matches Err(e) ==> exists|k: int|
                #![trigger chunk@[k]]
                {
                    let want = chunk_bytes(
                        old(self).pattern(),
                        old(self).seed(),
                        old(self).chunks(),
                        old(self).checked(),
                        chunk@.len(),
                    );
                    &&& 0 <= k < chunk@.len()
                    &&& chunk@[k] != want[k]
                    &&& forall|j: int| 0 <= j < k ==> chunk@[j] == want[j]
                    &&& e matches ShredError::Obfuscation(m)
                    &&& m@ == mismatch_text(want[k], chunk@[k], old(self).checked())
                },
    {
        let n = chunk.len();
        let ghost want = chunk_bytes(self.pattern, self.seed@, self.chunks, self.checked as nat, n as nat);
        let is_random = match self.pattern {
            PassPattern::Random => true,
            _ => false,
        };
        if is_random {
            let seed = make_chunk_seed(&self.seed, self.chunks);
            seeded_fill(&seed, &mut self.expected, n);
        }
        assert(want.len() == n) by {
            if !is_random {
                assert(want =~= Seq::new(n as nat, |i: int| pattern_byte(self.pattern, (self.checked + i) as nat)));
            }
        }
        let mut i: usize = 0;
        while i < n
            invariant
                n == chunk@.len(),
                n <= BUFFER_SIZE,
                i <= n,
                want.len() == n,
                want == chunk_bytes(old(self).pattern, old(self).seed@, old(self).chunks, old(self).checked as nat, n as nat),
                is_random == (self.pattern is Random),
                is_random ==> self.expected@.subrange(0, n as int) == want,
                !is_random ==> want == Seq::new(n as nat, |k: int| pattern_byte(self.pattern, (self.checked + k) as nat)),
                forall|j: int| 0 <= j < i ==> chunk@[j] == want[j],
                self.pattern == old(self).pattern,
                self.seed == old(self).seed,
                self.checked == old(self).checked,
                self.chunks == old(self).chunks,
                self.file_size == old(self).file_size,
                self.expected.len() == BUFFER_SIZE,
                self.checked + n <= self.file_size,
                self.checked <= self.file_size,
                self.chunks <= self.checked,
                self.pattern is Random ==> self.seed.len() == PASS_SEED_LEN,
            decreases n - i,
        {
            let expected = if is_random {
                assert(self.expected@[i as int] == self.expected@.subrange(0, n as int)[i as int]);
                self.expected[i]
            } else {
                byte_at(self.pattern, self.checked + i as u64)
            };
            assert(expected == want[i as int]);
            let byte = chunk[i];
            if byte != expected {
                let mut m = String::from_str("Verification failed: Expected 0x");
                push_hex_byte(&mut m, expected);
                m.append(", found 0x");
                push_hex_byte(&mut m, byte);
                m.append(" at offset ");
                push_decimal(&mut m, self.checked);
                assert(m@ == mismatch_text(expected, byte, self.checked as nat));
                assert(chunk@[i as int] == byte);
                assert(chunk@ != want);
                return Err(ShredError::Obfuscation(m));
            }
            i = i + 1;
        }
        assert(chunk@ =~= want);
        self.checked = self.checked + n as u64;
        if n > 0 {
            self.chunks = self.chunks + 1;
        }
        Ok(())
    }

    /// The outcome of the read-back: success once the whole file was checked, a
    /// cancellation error if it stopped short.
    pub fn finish(&self) -> (r: ShredResult<()>)
        requires
            self.wf(),
        ensures
            r is Ok <==> self.checked() == self.file_size(),
            r matches Err(e) ==> (e matches ShredError::Cli(m) && m@ == cancelled_text()),
    {
        if self.checked == self.file_size {
            Ok(())
        } else {
            Err(ShredError::Cli(String::from_str("Operation cancelled by user")))
        }
    }
}

/// A pass read back exactly as it was written passes the check: the writer and a verifier
/// made from it agree on the bytes of every chunk.
pub proof fn lemma_written_bytes_verify(w: PassWriter, v: PassVerifier)
    requires
        v.pattern() == w.pattern(),
        v.seed() == w.seed(),
        v.chunks() == w.chunks(),
        v.checked() == w.written(),
    ensures
        forall|len: nat| #[trigger] chunk_bytes(v.pattern(), v.seed(), v.chunks(), v.checked(), len)
            == chunk_bytes(w.pattern(), w.seed(), w.chunks(), w.written(), len),
{
}

} // verus!
