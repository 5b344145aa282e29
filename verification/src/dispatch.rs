use vstd::prelude::*;
use crate::errors::{KeygenError, QueueError, SignError, StoreError};
use crate::keyshare::{KeygenJob, LocalKeyShare, SigningJob};

verus! {

/// Why a queue delivery's handler gave up; the delivery is still acknowledged
/// so the queue never redelivers a poison message forever.
#[derive(Clone, Copy, PartialEq, Eq, Structural, Debug)]
pub enum JobFailure {
    Envelope(QueueError),
    Store(StoreError),
    Sign(SignError),
    Keygen(KeygenError),
    Report,
}

/// Phases of handling one sign-signal delivery; `Done` is terminal.
#[derive(Clone, Copy, PartialEq, Eq, Structural, Debug)]
pub enum SignJobPhase {
    Decoding,
    Resolving,
    Signing,
    Reporting,
    Done,
}

/// What the consumer task reports to the sign-signal handler.
pub enum SignJobEvent {
    EnvelopeDecoded(SigningJob),
    EnvelopeMalformed,
    ShareResolved,
    ShareMissing(StoreError),
    SignFinished(Vec<u8>),
    SignFailed(SignError),
    ReportDelivered,
    ReportFailed,
}

/// What the sign-signal handler decides.
pub enum SignJobAction {
    /// Resolve the requester identity's share from the key-share store.
    ResolveShare(String),
    /// Invoke the sign orchestrator with the decoded job and resolved share.
    RunSigning,
    /// Report the final signature to the external settlement collaborator.
    Report(Vec<u8>),
    /// Acknowledge the delivery; always the last action of a handler.
    Ack,
}

/// Handling of one sign-signal delivery: decode the envelope, resolve the
/// requester's share, run the sign orchestrator, report the signature, then
/// acknowledge. Every failure drops the job, is recorded as its cause, and
/// still acknowledges — a malformed envelope never crashes the consumer, and
/// the delivery is acknowledged only once the handler is finished with all
/// downstream calls.
pub struct SignJobFlow {
    pub phase: SignJobPhase,
    pub failure: Option<JobFailure>,
}

impl SignJobFlow {
    pub open spec fn wf(&self) -> bool {
        (self.failure is Some ==> self.phase is Done)
    }

    /// Which events the current phase can take; `Done` takes none.
    pub open spec fn accepts(&self, e: SignJobEvent) -> bool {
        match e {
            SignJobEvent::EnvelopeDecoded(_) => self.phase is Decoding,
            SignJobEvent::EnvelopeMalformed => self.phase is Decoding,
            SignJobEvent::ShareResolved => self.phase is Resolving,
            SignJobEvent::ShareMissing(_) => self.phase is Resolving,
            SignJobEvent::SignFinished(_) => self.phase is Signing,
            SignJobEvent::SignFailed(_) => self.phase is Signing,
            SignJobEvent::ReportDelivered => self.phase is Reporting,
            SignJobEvent::ReportFailed => self.phase is Reporting,
        }
    }

    pub fn accepts_event(&self, e: &SignJobEvent) -> (r: bool)
        ensures
            r == self.accepts(*e),
    {
        match e {
            SignJobEvent::EnvelopeDecoded(_) => matches!(self.phase, SignJobPhase::Decoding),
            SignJobEvent::EnvelopeMalformed => matches!(self.phase, SignJobPhase::Decoding),
            SignJobEvent::ShareResolved => matches!(self.phase, SignJobPhase::Resolving),
            SignJobEvent::ShareMissing(_) => matches!(self.phase, SignJobPhase::Resolving),
            SignJobEvent::SignFinished(_) => matches!(self.phase, SignJobPhase::Signing),
            SignJobEvent::SignFailed(_) => matches!(self.phase, SignJobPhase::Signing),
            SignJobEvent::ReportDelivered => matches!(self.phase, SignJobPhase::Reporting),
            SignJobEvent::ReportFailed => matches!(self.phase, SignJobPhase::Reporting),
        }
    }

    pub fn new() -> (r: SignJobFlow)
        ensures
            r.wf(),
            r.phase is Decoding,
            r.failure is None,
    {
        SignJobFlow { phase: SignJobPhase::Decoding, failure: None }
    }

    /// One decision of the handler. The delivery is acknowledged exactly when
    /// the handler reaches `Done`, never earlier.
    pub fn step(&mut self, e: SignJobEvent) -> (a: SignJobAction)
        requires
            old(self).wf(),
            old(self).accepts(e),
        ensures
            final(self).wf(),
            (a is Ack <==> final(self).phase is Done),
            (e matches SignJobEvent::EnvelopeDecoded(job) ==> ((
            a matches SignJobAction::ResolveShare(id) && id@ == job.identity@)
                && final(self).phase is Resolving)),
            (e is EnvelopeMalformed ==> (a is Ack && final(self).failure == Some(
                JobFailure::Envelope(QueueError::MalformedEnvelope),
            ))),
            (e is ShareResolved ==> (a is RunSigning && final(self).phase is Signing)),
            (e matches SignJobEvent::ShareMissing(err) ==> (a is Ack && final(self).failure
                == Some(JobFailure::Store(err)))),
            (e matches SignJobEvent::SignFinished(sig) ==> ((a matches SignJobAction::Report(s)
                && s == sig) && final(self).phase is Reporting)),
            (e matches SignJobEvent::SignFailed(err) ==> (a is Ack && final(self).failure == Some(
                JobFailure::Sign(err),
            ))),
            (e is ReportDelivered ==> (a is Ack && final(self).failure is None)),
            (e is ReportFailed ==> (a is Ack && final(self).failure == Some(JobFailure::Report))),
    {
        match e {
            SignJobEvent::EnvelopeDecoded(job) => {
                self.phase = SignJobPhase::Resolving;
                SignJobAction::ResolveShare(job.identity)
            },
            SignJobEvent::EnvelopeMalformed => {
                self.phase = SignJobPhase::Done;
                self.failure = Some(JobFailure::Envelope(QueueError::MalformedEnvelope));
                SignJobAction::Ack
            },
            SignJobEvent::ShareResolved => {
                self.phase = SignJobPhase::Signing;
                SignJobAction::RunSigning
            },
            SignJobEvent::ShareMissing(err) => {
                self.phase = SignJobPhase::Done;
                self.failure = Some(JobFailure::Store(err));
                SignJobAction::Ack
            },
            SignJobEvent::SignFinished(sig) => {
                self.phase = SignJobPhase::Reporting;
                SignJobAction::Report(sig)
            },
            SignJobEvent::SignFailed(err) => {
                self.phase = SignJobPhase::Done;
                self.failure = Some(JobFailure::Sign(err));
                SignJobAction::Ack
            },
            SignJobEvent::ReportDelivered => {
                self.phase = SignJobPhase::Done;
                SignJobAction::Ack
            },
            SignJobEvent::ReportFailed => {
                self.phase = SignJobPhase::Done;
                self.failure = Some(JobFailure::Report);
                SignJobAction::Ack
            },
        }
    }
}

/// Phases of handling one keygen-signal delivery; `Done` is terminal.
#[derive(Clone, Copy, PartialEq, Eq, Structural, Debug)]
pub enum KeygenJobPhase {
    Decoding,
    Generating,
    Persisting,
    Done,
}

/// What the consumer task reports to the keygen-signal handler.
pub enum KeygenJobEvent {
    EnvelopeDecoded(KeygenJob),
    EnvelopeMalformed,
    KeygenFinished(LocalKeyShare),
    KeygenFailed(KeygenError),
    PersistSucceeded,
    PersistFailed(StoreError),
}

/// What the keygen-signal handler decides.
pub enum KeygenJobAction {
    /// Invoke the keygen orchestrator with the decoded job.
    RunKeygen(KeygenJob),
    /// Persist the finished share (and derived public key) in the key-share
    /// store; an identity that already has one is rejected with Conflict.
    Persist(LocalKeyShare),
    /// Acknowledge the delivery; always the last action of a handler.
    Ack,
}

/// Handling of one keygen-signal delivery: decode the envelope, run the
/// keygen orchestrator, persist the resulting share, then acknowledge. Every
/// failure drops the job, is recorded as its cause, and still acknowledges.
pub struct KeygenJobFlow {
    pub phase: KeygenJobPhase,
    pub failure: Option<JobFailure>,
}

impl KeygenJobFlow {
    pub open spec fn wf(&self) -> bool {
        (self.failure is Some ==> self.phase is Done)
    }

    /// Which events the current phase can take; `Done` takes none.
    pub open spec fn accepts(&self, e: KeygenJobEvent) -> bool {
        match e {
            KeygenJobEvent::EnvelopeDecoded(_) => self.phase is Decoding,
            KeygenJobEvent::EnvelopeMalformed => self.phase is Decoding,
            KeygenJobEvent::KeygenFinished(_) => self.phase is Generating,
            KeygenJobEvent::KeygenFailed(_) => self.phase is Generating,
            KeygenJobEvent::PersistSucceeded => self.phase is Persisting,
            KeygenJobEvent::PersistFailed(_) => self.phase is Persisting,
        }
    }

    pub fn accepts_event(&self, e: &KeygenJobEvent) -> (r: bool)
        ensures
            r == self.accepts(*e),
    {
        match e {
            KeygenJobEvent::EnvelopeDecoded(_) => matches!(self.phase, KeygenJobPhase::Decoding),
            KeygenJobEvent::EnvelopeMalformed => matches!(self.phase, KeygenJobPhase::Decoding),
            KeygenJobEvent::KeygenFinished(_) => matches!(self.phase, KeygenJobPhase::Generating),
            KeygenJobEvent::KeygenFailed(_) => matches!(self.phase, KeygenJobPhase::Generating),
            KeygenJobEvent::PersistSucceeded => matches!(self.phase, KeygenJobPhase::Persisting),
            KeygenJobEvent::PersistFailed(_) => matches!(self.phase, KeygenJobPhase::Persisting),
        }
    }

    pub fn new() -> (r: KeygenJobFlow)
        ensures
            r.wf(),
            r.phase is Decoding,
            r.failure is None,
    {
        KeygenJobFlow { phase: KeygenJobPhase::Decoding, failure: None }
    }

    /// One decision of the handler. The delivery is acknowledged exactly when
    /// the handler reaches `Done`, never earlier.
    pub fn step(&mut self, e: KeygenJobEvent) -> (a: KeygenJobAction)
        requires
            old(self).wf(),
            old(self).accepts(e),
        ensures
            final(self).wf(),
            (a is Ack <==> final(self).phase is Done),
            (e matches KeygenJobEvent::EnvelopeDecoded(job) ==> (a == KeygenJobAction::RunKeygen(
                job,
            ) && final(self).phase is Generating)),
            (e is EnvelopeMalformed ==> (a is Ack && final(self).failure == Some(
                JobFailure::Envelope(QueueError::MalformedEnvelope),
            ))),
            (e matches KeygenJobEvent::KeygenFinished(share) ==> (a == KeygenJobAction::Persist(
                share,
            ) && final(self).phase is Persisting)),
            (e matches KeygenJobEvent::KeygenFailed(err) ==> (a is Ack && final(self).failure
                == Some(JobFailure::Keygen(err)))),
            (e is PersistSucceeded ==> (a is Ack && final(self).failure is None)),
            (e matches KeygenJobEvent::PersistFailed(err) ==> (a is Ack && final(self).failure
                == Some(JobFailure::Store(err)))),
    {
        match e {
            KeygenJobEvent::EnvelopeDecoded(job) => {
                self.phase = KeygenJobPhase::Generating;
                KeygenJobAction::RunKeygen(job)
            },
            KeygenJobEvent::EnvelopeMalformed => {
                self.phase = KeygenJobPhase::Done;
                self.failure = Some(JobFailure::Envelope(QueueError::MalformedEnvelope));
                KeygenJobAction::Ack
            },
            KeygenJobEvent::KeygenFinished(share) => {
                self.phase = KeygenJobPhase::Persisting;
                KeygenJobAction::Persist(share)
            },
            KeygenJobEvent::KeygenFailed(err) => {
                self.phase = KeygenJobPhase::Done;
                self.failure = Some(JobFailure::Keygen(err));
                KeygenJobAction::Ack
            },
            KeygenJobEvent::PersistSucceeded => {
                self.phase = KeygenJobPhase::Done;
                KeygenJobAction::Ack
            },
            KeygenJobEvent::PersistFailed(err) => {
                self.phase = KeygenJobPhase::Done;
                self.failure = Some(JobFailure::Store(err));
                KeygenJobAction::Ack
            },
        }
    }
}

} // verus!
