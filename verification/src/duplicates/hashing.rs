//! Content fingerprints: the bytes sampled from a file, and their SHA-256 digest.

use vstd::prelude::*;
use sha2::Digest;

verus! {

/// Number of bytes sampled from the head and from the tail of a file for its fingerprint.
pub const FINGERPRINT_SAMPLE_SIZE: u64 = 4096;

/// Bounded buffer size for streaming full-content hashing (64 KiB).
pub const STREAMING_CHUNK_SIZE: usize = 65536;

/// The SHA-256 digest of a byte sequence.
pub uninterp spec fn sha256_digest(data: Seq<u8>) -> Seq<u8>;

/// `sha2::Sha256::digest`: the SHA-256 digest of `data`. Nothing more is claimed of it
/// than that it is the digest of these bytes.
#[verifier::external_body]
fn sha256(data: &[u8]) -> (d: [u8; 32])
    ensures
        d@ == sha256_digest(data@),
{
    let out = sha2::Sha256::digest(data);
    out.into()
}

/// The running state of a SHA-256 computation (`sha2::Sha256`), fed piece by piece.
#[verifier::external_body]
pub struct HasherState(sha2::Sha256);

/// The bytes fed to a hashing state so far, in order.
pub uninterp spec fn absorbed_bytes(state: HasherState) -> Seq<u8>;

/// `Digest::new` on `sha2::Sha256`: a state that has absorbed nothing.
#[verifier::external_body]
fn hasher_new() -> (h: HasherState)
    ensures
        absorbed_bytes(h) == Seq::<u8>::empty(),
{
    HasherState(sha2::Sha256::new())
}

/// `Digest::update` on `sha2::Sha256`: the state has absorbed `chunk` after what it held.
#[verifier::external_body]
fn hasher_update(h: &mut HasherState, chunk: &[u8])
    ensures
        absorbed_bytes(*final(h)) == absorbed_bytes(*old(h)) + chunk@,
{
    h.0.update(chunk);
}

/// `Digest::finalize` on `sha2::Sha256`: the digest of every byte the state absorbed, the
/// same digest `Sha256::digest` gives for those bytes at once.
#[verifier::external_body]
fn hasher_finalize(h: HasherState) -> (d: [u8; 32])
    ensures
        d@ == sha256_digest(absorbed_bytes(h)),
{
    h.0.finalize().into()
}

/// SHA-256 of a stream of bytes fed in pieces of any size.
pub struct ContentHasher {
    state: HasherState,
}

impl ContentHasher {
    /// The bytes fed so far, in order.
    pub closed spec fn absorbed(&self) -> Seq<u8> {
        absorbed_bytes(self.state)
    }

    /// A hasher that has been fed nothing.
    pub fn new() -> (h: Self)
        ensures
            h.absorbed() == Seq::<u8>::empty(),
    {
        ContentHasher { state: hasher_new() }
    }

    /// Feeds `chunk` after everything fed before.
    pub fn update(&mut self, chunk: &[u8])
        ensures
            final(self).absorbed() == old(self).absorbed() + chunk@,
    {
        hasher_update(&mut self.state, chunk);
    }

    /// The SHA-256 digest of everything fed, in order.
    pub fn finalize(self) -> (d: [u8; 32])
        ensures
            d@ == sha256_digest(self.absorbed()),
    {
        hasher_finalize(self.state)
    }
}

/// The bytes of `n`, least significant first, `k` of them.
pub open spec fn le_bytes(n: nat, k: nat) -> Seq<u8>
    decreases k,
{
    if k == 0 {
        Seq::empty()
    } else {
        seq![(n % 256) as u8] + le_bytes(n / 256, (k - 1) as nat)
    }
}

/// Which bytes of a file of `file_size` bytes the fingerprint reads: the head, up to the
/// sample size, and, for a larger file, the tail after the head, up to the sample size.
#[derive(Debug, Clone, Copy, PartialEq, Eq, Structural)]
pub struct SamplePlan {
    pub head_len: u64,
    pub tail_start: u64,
    pub tail_len: u64,
}

pub open spec fn sample_plan(file_size: u64) -> SamplePlan {
    let head_len = if file_size < FINGERPRINT_SAMPLE_SIZE { file_size } else { FINGERPRINT_SAMPLE_SIZE };
    if file_size > FINGERPRINT_SAMPLE_SIZE {
        let start = if file_size > 2 * FINGERPRINT_SAMPLE_SIZE {
            (file_size - FINGERPRINT_SAMPLE_SIZE) as u64
        } else {
            FINGERPRINT_SAMPLE_SIZE
        };
        SamplePlan { head_len, tail_start: start, tail_len: (file_size - start) as u64 }
    } else {
        SamplePlan { head_len, tail_start: file_size, tail_len: 0 }
    }
}

/// The byte ranges a fingerprint of a file of `file_size` bytes reads.
pub fn fingerprint_sample_plan(file_size: u64) -> (p: SamplePlan)
    ensures
        p == sample_plan(file_size),
        p.head_len <= FINGERPRINT_SAMPLE_SIZE,
        p.tail_len <= FINGERPRINT_SAMPLE_SIZE,
        p.head_len <= p.tail_start,
        p.tail_start + p.tail_len == file_size,
{
    let head_len = if file_size < FINGERPRINT_SAMPLE_SIZE { file_size } else { FINGERPRINT_SAMPLE_SIZE };
    if file_size > FINGERPRINT_SAMPLE_SIZE {
        let start = if file_size > 2 * FINGERPRINT_SAMPLE_SIZE {
            file_size - FINGERPRINT_SAMPLE_SIZE
        } else {
            FINGERPRINT_SAMPLE_SIZE
        };
        SamplePlan { head_len, tail_start: start, tail_len: file_size - start }
    } else {
        SamplePlan { head_len, tail_start: file_size, tail_len: 0 }
    }
}

/// What the fingerprint digests: the file size as eight little-endian bytes, then the
/// head sample, then the tail sample.
pub open spec fn fingerprint_message(file_size: u64, head: Seq<u8>, tail: Seq<u8>) -> Seq<u8> {
    le_bytes(file_size as nat, 8) + head + tail
}

fn le_bytes_exec(n: u64) -> (out: Vec<u8>)
    ensures
        out@ == le_bytes(n as nat, 8),
{
    let mut out: Vec<u8> = Vec::new();
    let mut x: u64 = n;
    let mut k: u64 = 0;
    while k < 8
        invariant
            k <= 8,
            out@ + le_bytes(x as nat, (8 - k) as nat) == le_bytes(n as nat, 8),
        decreases 8 - k,
    {
        let b: u8 = (x % 256) as u8;
        let ghost before = out@;
        let ghost xo = x;
        out.push(b);
        x = x / 256;
        k = k + 1;
        assert(le_bytes(xo as nat, (8 - (k - 1)) as nat) == seq![b] + le_bytes(x as nat, (8 - k) as nat));
        assert(out@ + le_bytes(x as nat, (8 - k) as nat) =~= before + le_bytes(xo as nat, (8 - (k - 1)) as nat));
    }
    assert(le_bytes(x as nat, 0) =~= Seq::<u8>::empty());
    assert(out@ + Seq::<u8>::empty() =~= out@);
    out
}

fn append(out: &mut Vec<u8>, data: &[u8])
    ensures
        final(out)@ == old(out)@ + data@,
{
    let ghost before = out@;
    let mut i: usize = 0;
    while i < data.len()
        invariant
            i <= data@.len(),
            out@ == before + data@.subrange(0, i as int),
        decreases data@.len() - i,
    {
        out.push(data[i]);
        i = i + 1;
        assert(out@ =~= before + data@.subrange(0, i as int));
    }
    assert(data@.subrange(0, data@.len() as int) =~= data@);
}

/// Fingerprint of a file from its size and the head and tail samples that
/// `fingerprint_sample_plan` names.
pub fn compute_quick_fingerprint(file_size: u64, head: &[u8], tail: &[u8]) -> (fp: [u8; 32])
    ensures
        fp@ == sha256_digest(fingerprint_message(file_size, head@, tail@)),
{
    let mut message = le_bytes_exec(file_size);
    append(&mut message, head);
    append(&mut message, tail);
    sha256(message.as_slice())
}

} // verus!
