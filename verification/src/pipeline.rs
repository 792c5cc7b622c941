//! The server's upload pipeline, one instance per inbound request.
//!
//! States run *Receiving → Committing → Done*, with *Failed* absorbing any
//! abort. While receiving, each chunk goes to the temporary file and into the
//! digest accumulator in lockstep, so the digest never diverges from the
//! appended bytes. The payload signature is verified against the finalized
//! digest before any commit plan is issued: a pipeline is only ever committing
//! or done when the asserted signature verifies over exactly the received
//! bytes, so no artifact can appear at the final path without integrity.
//!
//! The temporary file itself is owned by the I/O layer; the pipeline tracks
//! whether one still exists, and its contract demands the cleanup transition
//! on every failed exit, graceful or not.
use vstd::prelude::*;

use crate::crypto;
use crate::hasher::{digest_of, Hasher};
use crate::request::SignableRequest;
use crate::storage;
use crate::TransferError;

verus! {

/// The state of one upload.
#[derive(Clone, Copy, Debug, PartialEq, Eq, Structural)]
pub enum UploadState {
    /// Streaming chunks into the temporary file and the digest.
    Receiving,
    /// Payload signature verified and paths resolved; the commit plan is out.
    Committing,
    /// The artifact was published at its final path.
    Done,
    /// Aborted; nothing was or will be published.
    Failed,
}

/// Everything the I/O layer needs to publish a verified upload: write the
/// signature bytes to the signature path, then atomically move the temporary
/// file to the payload path — in that order, so no reader ever observes a
/// payload without its signature.
pub struct CommitPlan {
    pub payload_path: Vec<u8>,
    pub signature_path: Vec<u8>,
    pub payload_signature: Vec<u8>,
}

/// One upload in flight.
pub struct UploadPipeline {
    request: SignableRequest,
    asserted_signature: Vec<u8>,
    hasher: Hasher,
    state: UploadState,
    temp_present: bool,
}

impl UploadPipeline {
    /// The request this upload was authorized by.
    pub closed spec fn spec_request(&self) -> SignableRequest {
        self.request
    }

    /// The payload signature the client asserted up front.
    pub closed spec fn spec_asserted_signature(&self) -> Seq<u8> {
        self.asserted_signature@
    }

    /// All payload bytes received so far, in order.
    pub closed spec fn received(&self) -> Seq<u8> {
        self.hasher.bytes()
    }

    pub closed spec fn spec_state(&self) -> UploadState {
        self.state
    }

    /// Whether the temporary file still exists on disk.
    pub closed spec fn spec_temp_present(&self) -> bool {
        self.temp_present
    }

    /// Whether the asserted payload signature verifies over the digest of the
    /// received bytes under the uploading identity.
    pub open spec fn payload_verified(&self) -> bool {
        crypto::verify_of(
            self.spec_request().spec_pubkey(),
            digest_of(self.received()),
            self.spec_asserted_signature(),
        )
    }

    /// The pipeline invariant: past *Receiving*, integrity has been checked —
    /// a committing or done pipeline always carries a signature that verifies
    /// over exactly the bytes it received; and a done pipeline has consumed
    /// its temporary file.
    pub open spec fn wf(&self) -> bool {
        &&& self.spec_request().wf()
        &&& (self.spec_state() == UploadState::Committing || self.spec_state()
            == UploadState::Done ==> self.payload_verified())
        &&& (self.spec_state() == UploadState::Done ==> !self.spec_temp_present())
    }

    /// Starts receiving for an authorized request, right after the I/O layer
    /// has opened a fresh temporary file.
    pub fn begin(request: SignableRequest, asserted_signature: Vec<u8>) -> (p: Self)
        requires
            request.wf(),
        ensures
            p.wf(),
            p.spec_state() == UploadState::Receiving,
            p.spec_request() == request,
            p.spec_asserted_signature() == asserted_signature@,
            p.received() == Seq::<u8>::empty(),
            p.spec_temp_present(),
    {
        UploadPipeline {
            request,
            asserted_signature,
            hasher: Hasher::new(),
            state: UploadState::Receiving,
            temp_present: true,
        }
    }

    /// Absorbs one chunk that the I/O layer has just appended to the
    /// temporary file, keeping digest and on-disk bytes in lockstep.
    pub fn append_chunk(&mut self, chunk: &[u8])
        requires
            old(self).wf(),
            old(self).spec_state() == UploadState::Receiving,
        ensures
            final(self).wf(),
            final(self).spec_state() == UploadState::Receiving,
            final(self).received() == old(self).received() + chunk@,
            final(self).spec_request() == old(self).spec_request(),
            final(self).spec_asserted_signature() == old(self).spec_asserted_signature(),
            final(self).spec_temp_present() == old(self).spec_temp_present(),
    {
        self.hasher.update(chunk);
    }

    /// Ends the stream: verifies the asserted payload signature against the
    /// finalized digest, then resolves the final paths. Exactly when both
    /// succeed, the pipeline moves to *Committing* and hands out the commit
    /// plan; any failure absorbs into *Failed* and no plan ever exists.
    pub fn finish(&mut self, storage_root: &[u8]) -> (r: Result<CommitPlan, TransferError>)
        requires
            old(self).wf(),
            old(self).spec_state() == UploadState::Receiving,
        ensures
            final(self).wf(),
            final(self).received() == old(self).received(),
            final(self).spec_request() == old(self).spec_request(),
            final(self).spec_asserted_signature() == old(self).spec_asserted_signature(),
            final(self).spec_temp_present() == old(self).spec_temp_present(),
            r is Ok <==> old(self).payload_verified() && storage::resource_name_ok(
                old(self).spec_request().spec_filename(),
            ),
            match r {
                Ok(plan) => {
                    &&& old(self).payload_verified()
                    &&& storage::resource_name_ok(old(self).spec_request().spec_filename())
                    &&& final(self).spec_state() == UploadState::Committing
                    &&& plan.payload_path@ == storage::payload_path_spec(
                        storage_root@,
                        old(self).spec_request().spec_pubkey(),
                        old(self).spec_request().spec_filename(),
                    )
                    &&& plan.signature_path@ == storage::signature_path_spec(plan.payload_path@)
                    &&& plan.payload_signature@ == old(self).spec_asserted_signature()
                },
                Err(e) => {
                    &&& final(self).spec_state() == UploadState::Failed
                    &&& (e == TransferError::IntegrityFailure <==> !old(self).payload_verified())
                    &&& (e == TransferError::SandboxViolation <==> old(self).payload_verified()
                        && !storage::resource_name_ok(old(self).spec_request().spec_filename()))
                },
            },
    {
        let digest = self.hasher.finalize();
        let verified = crypto::ed25519_verify(
            self.request.pubkey().as_bytes().as_slice(),
            digest.as_slice(),
            self.asserted_signature.as_slice(),
        );
        if !verified {
            self.state = UploadState::Failed;
            return Err(TransferError::IntegrityFailure);
        }
        match storage::get_file_paths(storage_root, self.request.pubkey(), self.request.filename().as_slice()) {
            Ok((payload_path, signature_path)) => {
                self.state = UploadState::Committing;
                let mut payload_signature: Vec<u8> = Vec::new();
                crate::num::push_all(&mut payload_signature, self.asserted_signature.as_slice());
                proof {
                    assert(payload_signature@ =~= self.asserted_signature@);
                }
                Ok(CommitPlan { payload_path, signature_path, payload_signature })
            },
            Err(e) => {
                self.state = UploadState::Failed;
                Err(e)
            },
        }
    }

    /// The I/O layer reports that the commit plan was carried out: signature
    /// written, temporary file atomically renamed to the payload path.
    pub fn committed(&mut self)
        requires
            old(self).wf(),
            old(self).spec_state() == UploadState::Committing,
        ensures
            final(self).wf(),
            final(self).spec_state() == UploadState::Done,
            !final(self).spec_temp_present(),
            final(self).received() == old(self).received(),
            final(self).spec_request() == old(self).spec_request(),
            final(self).spec_asserted_signature() == old(self).spec_asserted_signature(),
    {
        self.state = UploadState::Done;
        self.temp_present = false;
    }

    /// Absorbs any abort — a stream error, a client disconnect, an I/O
    /// failure — into *Failed*. The cleanup obligation remains.
    pub fn abort(&mut self)
        requires
            old(self).wf(),
        ensures
            final(self).wf(),
            final(self).spec_state() == UploadState::Failed,
            final(self).spec_temp_present() == old(self).spec_temp_present(),
            final(self).received() == old(self).received(),
            final(self).spec_request() == old(self).spec_request(),
            final(self).spec_asserted_signature() == old(self).spec_asserted_signature(),
    {
        self.state = UploadState::Failed;
    }

    /// The I/O layer reports that the temporary file was removed. Mandatory
    /// on every failed exit: after cleanup an interrupted upload has left
    /// neither an artifact at the final path nor a temporary file behind.
    pub fn cleanup(&mut self)
        requires
            old(self).wf(),
            old(self).spec_state() == UploadState::Failed,
        ensures
            final(self).wf(),
            final(self).spec_state() == UploadState::Failed,
            !final(self).spec_temp_present(),
            final(self).received() == old(self).received(),
            final(self).spec_request() == old(self).spec_request(),
            final(self).spec_asserted_signature() == old(self).spec_asserted_signature(),
    {
        self.temp_present = false;
    }

    pub fn state(&self) -> (r: UploadState)
        ensures
            r == self.spec_state(),
    {
        self.state
    }

    pub fn temp_present(&self) -> (r: bool)
        ensures
            r == self.spec_temp_present(),
    {
        self.temp_present
    }
}

/// An upload whose received bytes do not match the asserted payload signature
/// is never committing and never done: no artifact of it can appear at the
/// final storage path.
pub proof fn lemma_no_commit_without_integrity(p: UploadPipeline)
    requires
        p.wf(),
        !p.payload_verified(),
    ensures
        p.spec_state() != UploadState::Committing,
        p.spec_state() != UploadState::Done,
{
}

} // verus!
