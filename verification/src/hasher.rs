//! Incremental content digest.
//!
//! The digest is the unit that gets cryptographically signed: the payload
//! signature is an Ed25519 signature over the finalized 64-byte digest of the
//! file's bytes, so content is never buffered whole to be signed. The
//! accumulator tracks, as its mathematical model, exactly the byte sequence
//! fed so far.
use vstd::prelude::*;

use blake3::Hasher as Blake3Hasher;

verus! {

#[verifier::external_type_specification]
#[verifier::external_body]
pub struct ExBlake3Hasher(Blake3Hasher);

/// The 64-byte extended BLAKE3 digest of a byte sequence. Named, not written
/// out: `Hasher::finalize` is the only source of its values.
pub uninterp spec fn digest_of(content: Seq<u8>) -> Seq<u8>;

/// Relies on blake3::Hasher::new: a fresh accumulator that has absorbed no
/// bytes yet.
#[verifier::external_body]
fn blake3_new() -> (r: Blake3Hasher) {
    Blake3Hasher::new()
}

/// Incremental digest accumulator. Bytes go in through `update` in content
/// order; `finalize` yields the digest of everything fed so far.
pub struct Hasher {
    inner: Blake3Hasher,
    fed: Ghost<Seq<u8>>,
}

impl Hasher {
    /// The bytes fed so far, in order.
    pub closed spec fn bytes(&self) -> Seq<u8> {
        self.fed@
    }

    pub fn new() -> (r: Self)
        ensures
            r.bytes() == Seq::<u8>::empty(),
    {
        Hasher { inner: blake3_new(), fed: Ghost(Seq::empty()) }
    }

    /// Relies on blake3::Hasher::update: appends `data` to the hashed stream.
    #[verifier::external_body]
    pub fn update(&mut self, data: &[u8])
        ensures
            final(self).bytes() == old(self).bytes() + data@,
    {
        self.inner.update(data);
    }

    /// Relies on blake3::Hasher::finalize_xof and OutputReader::fill: the
    /// first 64 bytes of the extended output are a function of the fed bytes
    /// alone, deterministic and order-sensitive.
    #[verifier::external_body]
    pub fn finalize(&self) -> (r: Vec<u8>)
        ensures
            r@ == digest_of(self.bytes()),
            r@.len() == 64,
    {
        let mut out = vec![0u8; 64];
        self.inner.finalize_xof().fill(&mut out);
        out
    }
}

impl Default for Hasher {
    fn default() -> (r: Self)
        ensures
            r.bytes() == Seq::<u8>::empty(),
    {
        Hasher::new()
    }
}

} // verus!
