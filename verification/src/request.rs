//! Signed requests: the authenticated envelope of every transfer.
//!
//! A request binds a resource name, the requesting identity and a timestamp
//! into one canonically encoded message; the signature over that message is
//! checked together with a freshness window, so an intercepted request can
//! neither be replayed later nor redirected at another resource.
use vstd::prelude::*;

use crate::crypto;
use crate::num;
use crate::TransferError;

verus! {

/// Freshness window: how many seconds a request's timestamp may differ from
/// the verifier's clock.
pub const MAX_CLIENT_TIME_DIFF: u64 = 60;

/// An authentication principal: a 32-byte Ed25519 public verification key,
/// which also keys the storage namespace.
pub struct Identity {
    bytes: Vec<u8>,
}

impl View for Identity {
    type V = Seq<u8>;

    closed spec fn view(&self) -> Seq<u8> {
        self.bytes@
    }
}

impl Identity {
    /// A valid identity holds exactly 32 key bytes.
    pub open spec fn wf(&self) -> bool {
        self@.len() == 32
    }

    /// Accepts exactly 32 bytes as an identity.
    pub fn from_bytes(bytes: Vec<u8>) -> (r: Result<Identity, TransferError>)
        ensures
            match r {
                Ok(id) => id@ == bytes@ && bytes@.len() == 32,
                Err(e) => e == TransferError::MalformedInput && bytes@.len() != 32,
            },
    {
        if bytes.len() == 32 {
            Ok(Identity { bytes })
        } else {
            Err(TransferError::MalformedInput)
        }
    }

    pub fn as_bytes(&self) -> (r: &Vec<u8>)
        ensures
            r@ == self@,
    {
        &self.bytes
    }
}

/// The canonical encoding of a request: the resource name prefixed by its
/// byte length as a 4-byte little-endian word, then the raw identity bytes,
/// then the fixed-width 8-byte little-endian timestamp. Deterministic, and
/// unambiguous for 32-byte identities and names that fit the length prefix.
pub open spec fn canonical_encoding(filename: Seq<u8>, identity: Seq<u8>, time: u64) -> Seq<u8> {
    num::u32_le_bytes(filename.len() as u32) + filename + identity + num::u64_le_bytes(time)
}

/// Whether a timestamp lies within the freshness window around `now`.
pub open spec fn fresh_at(time: u64, now: u64) -> bool {
    if now >= time {
        now - time <= MAX_CLIENT_TIME_DIFF
    } else {
        time - now <= MAX_CLIENT_TIME_DIFF
    }
}

/// Whether a presented request is accepted at verification time `now`: its
/// name is encodable, it is fresh, and the signature verifies over the
/// canonical encoding of exactly the presented fields.
pub open spec fn request_accepted(
    filename: Seq<u8>,
    identity: Seq<u8>,
    time: u64,
    signature: Seq<u8>,
    now: u64,
) -> bool {
    &&& filename.len() <= u32::MAX
    &&& fresh_at(time, now)
    &&& crypto::verify_of(identity, canonical_encoding(filename, identity, time), signature)
}

/// A request outside the freshness window is rejected whatever its signature.
pub proof fn lemma_stale_request_rejected(
    filename: Seq<u8>,
    identity: Seq<u8>,
    time: u64,
    signature: Seq<u8>,
    now: u64,
)
    requires
        !fresh_at(time, now),
    ensures
        !request_accepted(filename, identity, time, signature, now),
{
}

/// No two distinct (resource name, identity, timestamp) triples share a
/// canonical encoding, so a signature bound to one triple is never checked
/// against the same message for another.
pub proof fn lemma_canonical_encoding_injective(
    f1: Seq<u8>,
    i1: Seq<u8>,
    t1: u64,
    f2: Seq<u8>,
    i2: Seq<u8>,
    t2: u64,
)
    requires
        f1.len() <= u32::MAX,
        f2.len() <= u32::MAX,
        i1.len() == 32,
        i2.len() == 32,
        canonical_encoding(f1, i1, t1) == canonical_encoding(f2, i2, t2),
    ensures
        f1 == f2,
        i1 == i2,
        t1 == t2,
{
    let e1 = canonical_encoding(f1, i1, t1);
    let e2 = canonical_encoding(f2, i2, t2);
    num::lemma_le_bytes_len(f1.len() as nat, 4);
    num::lemma_le_bytes_len(f2.len() as nat, 4);
    num::lemma_le_bytes_len(t1 as nat, 8);
    num::lemma_le_bytes_len(t2 as nat, 8);
    assert(num::u32_le_bytes(f1.len() as u32) =~= num::u32_le_bytes(f2.len() as u32)) by {
        assert(forall|j: int|
            0 <= j < 4 ==> #[trigger] num::u32_le_bytes(f1.len() as u32)[j] == e1[j]
                && num::u32_le_bytes(f2.len() as u32)[j] == e2[j]);
    }
    num::lemma_u32_le_bytes_injective(f1.len() as u32, f2.len() as u32);
    assert(f1.len() == f2.len());
    let n = f1.len() as int;
    assert(f1 =~= f2) by {
        assert(forall|j: int| 0 <= j < n ==> #[trigger] f1[j] == e1[4 + j] && f2[j] == e2[4 + j]);
    }
    assert(i1 =~= i2) by {
        assert(forall|j: int|
            0 <= j < 32 ==> #[trigger] i1[j] == e1[4 + n + j] && i2[j] == e2[4 + n + j]);
    }
    assert(num::u64_le_bytes(t1) =~= num::u64_le_bytes(t2)) by {
        assert(forall|j: int|
            0 <= j < 8 ==> #[trigger] num::u64_le_bytes(t1)[j] == e1[4 + n + 32 + j]
                && num::u64_le_bytes(t2)[j] == e2[4 + n + 32 + j]);
    }
    num::lemma_u64_le_bytes_injective(t1, t2);
}

/// The unsigned envelope of one operation: resource name, identity, timestamp.
pub struct SignableRequest {
    filename: Vec<u8>,
    pubkey: Identity,
    time: u64,
}

impl SignableRequest {
    pub open spec fn wf(&self) -> bool {
        self.spec_pubkey().len() == 32
    }

    pub closed spec fn spec_filename(&self) -> Seq<u8> {
        self.filename@
    }

    pub closed spec fn spec_pubkey(&self) -> Seq<u8> {
        self.pubkey@
    }

    pub closed spec fn spec_time(&self) -> u64 {
        self.time
    }

    /// The canonical encoding of this request's fields.
    pub open spec fn encoding(&self) -> Seq<u8> {
        canonical_encoding(self.spec_filename(), self.spec_pubkey(), self.spec_time())
    }

    /// Builds a request carrying the caller-asserted timestamp. The server
    /// reconstructs received requests with this, handing in the exact time
    /// field the client asserted.
    pub fn with_time(filename: Vec<u8>, pubkey: Identity, time: u64) -> (r: Self)
        ensures
            r.spec_filename() == filename@,
            r.spec_pubkey() == pubkey@,
            r.spec_time() == time,
    {
        SignableRequest { filename, pubkey, time }
    }

    /// Builds a request stamped with the current wall-clock seconds, which the
    /// caller reads at its I/O edge and passes in.
    pub fn new(filename: Vec<u8>, pubkey: Identity, now: u64) -> (r: Self)
        ensures
            r.spec_filename() == filename@,
            r.spec_pubkey() == pubkey@,
            r.spec_time() == now,
    {
        Self::with_time(filename, pubkey, now)
    }

    pub fn filename(&self) -> (r: &Vec<u8>)
        ensures
            r@ == self.spec_filename(),
    {
        &self.filename
    }

    pub fn pubkey(&self) -> (r: &Identity)
        ensures
            r@ == self.spec_pubkey(),
    {
        &self.pubkey
    }

    pub fn time(&self) -> (r: u64)
        ensures
            r == self.spec_time(),
    {
        self.time
    }

    /// Emits the canonical encoding: unambiguous framing by explicit length
    /// prefix, never delimiters.
    pub fn serialize(&self) -> (v: Vec<u8>)
        requires
            self.spec_filename().len() <= u32::MAX,
        ensures
            v@ == self.encoding(),
    {
        let mut v = num::u32_to_le_bytes(self.filename.len() as u32);
        num::push_all(&mut v, self.filename.as_slice());
        num::push_all(&mut v, self.pubkey.as_bytes().as_slice());
        let time_bytes = num::u64_to_le_bytes(self.time);
        num::push_all(&mut v, time_bytes.as_slice());
        proof {
            assert(v@ =~= self.encoding());
        }
        v
    }

    /// Signs the canonical encoding with the matching private key; a secret
    /// of the wrong size is a malformed key, and a resource name too long for
    /// the length prefix is unencodable — both are reported, not signed with.
    pub fn sign(self, secret: &[u8]) -> (r: Result<SignedRequest, TransferError>)
        ensures
            match r {
                Ok(signed) => secret@.len() == 32 && self.spec_filename().len() <= u32::MAX
                    && signed.spec_request() == self && signed.spec_signature()
                    == crypto::signature_of(secret@, self.encoding()) && crypto::verify_of(
                    crypto::public_key_of(secret@),
                    self.encoding(),
                    signed.spec_signature(),
                ),
                Err(e) => e == TransferError::MalformedInput && (secret@.len() != 32
                    || self.spec_filename().len() > u32::MAX),
            },
    {
        if secret.len() != 32 {
            return Err(TransferError::MalformedInput);
        }
        if self.filename.len() > u32::MAX as usize {
            return Err(TransferError::MalformedInput);
        }
        let message = self.serialize();
        let signature = crypto::ed25519_sign(secret, message.as_slice());
        Ok(SignedRequest { request: self, signature })
    }

    /// Both mandatory checks of an inbound request: freshness of the asserted
    /// timestamp against `now`, then strict signature verification over the
    /// canonical encoding. Either failure is an authentication error.
    pub fn check_signature(&self, request_signature: &[u8], now: u64) -> (r: Result<
        (),
        TransferError,
    >)
        ensures
            r is Ok <==> request_accepted(
                self.spec_filename(),
                self.spec_pubkey(),
                self.spec_time(),
                request_signature@,
                now,
            ),
            r is Err ==> r == Err::<(), TransferError>(TransferError::AuthenticationFailure),
    {
        if self.filename.len() > u32::MAX as usize {
            return Err(TransferError::AuthenticationFailure);
        }
        let time_diff = if now >= self.time {
            now - self.time
        } else {
            self.time - now
        };
        if time_diff > MAX_CLIENT_TIME_DIFF {
            return Err(TransferError::AuthenticationFailure);
        }
        let message = self.serialize();
        if crypto::ed25519_verify(
            self.pubkey.as_bytes().as_slice(),
            message.as_slice(),
            request_signature,
        ) {
            Ok(())
        } else {
            Err(TransferError::AuthenticationFailure)
        }
    }
}

/// A signable request together with the signature over its canonical encoding.
pub struct SignedRequest {
    request: SignableRequest,
    signature: Vec<u8>,
}

impl SignedRequest {
    pub closed spec fn spec_request(&self) -> SignableRequest {
        self.request
    }

    pub closed spec fn spec_signature(&self) -> Seq<u8> {
        self.signature@
    }

    pub fn request(&self) -> (r: &SignableRequest)
        ensures
            r == self.spec_request(),
    {
        &self.request
    }

    pub fn signature(&self) -> (r: &Vec<u8>)
        ensures
            r@ == self.spec_signature(),
    {
        &self.signature
    }
}

} // verus!
