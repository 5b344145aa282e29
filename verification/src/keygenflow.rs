use vstd::prelude::*;
use crate::errors::{KeygenError, ProtocolError, RelayError};
use crate::keyshare::{KeygenJob, LocalKeyShare};

verus! {

/// Phases of one key-generation run; `Completed` and `Failed` are terminal.
#[derive(Clone, Copy, PartialEq, Eq, Structural, Debug)]
pub enum KeygenPhase {
    Joining,
    Running,
    Completed,
    Failed,
}

/// What the surrounding run reports to the keygen flow.
pub enum KeygenEvent {
    Joined,
    JoinFailed(RelayError),
    /// The keygen state machine completed with this serialized share
    /// material and this serialized derived joint public key.
    Done(Vec<u8>, String),
    Fault(ProtocolError),
}

/// What the keygen flow decides.
pub enum KeygenAction {
    /// Join the identity-named room.
    JoinRoom(String),
    /// Construct a fresh keygen state machine with these parameters and drive
    /// it to completion.
    RunProtocol { index: u16, threshold: u16, parties: u16 },
    /// Hand the finished share to the caller; persisting it is the caller's
    /// responsibility.
    Finish(LocalKeyShare),
    /// Abort the run.
    Fail(KeygenError),
}

/// The Keygen Orchestrator as a decision machine: join the identity-named
/// room, construct a fresh keygen state machine with (index, t, n), drive it
/// through the Round Executor, and emit a LocalKeyShare carrying exactly the
/// job's parameters.
pub struct KeygenFlow {
    pub phase: KeygenPhase,
    pub job: KeygenJob,
    pub failure: Option<KeygenError>,
}

impl KeygenFlow {
    pub open spec fn wf(&self) -> bool {
        &&& self.job.wf()
        &&& (self.phase is Failed ==> self.failure is Some)
    }

    /// Which events the current phase can take; terminal phases take none.
    pub open spec fn accepts(&self, e: KeygenEvent) -> bool {
        match e {
            KeygenEvent::Joined => self.phase is Joining,
            KeygenEvent::JoinFailed(_) => self.phase is Joining,
            KeygenEvent::Done(_, _) => self.phase is Running,
            KeygenEvent::Fault(_) => self.phase is Running,
        }
    }

    pub fn accepts_event(&self, e: &KeygenEvent) -> (r: bool)
        ensures
            r == self.accepts(*e),
    {
        match e {
            KeygenEvent::Joined => matches!(self.phase, KeygenPhase::Joining),
            KeygenEvent::JoinFailed(_) => matches!(self.phase, KeygenPhase::Joining),
            KeygenEvent::Done(_, _) => matches!(self.phase, KeygenPhase::Running),
            KeygenEvent::Fault(_) => matches!(self.phase, KeygenPhase::Running),
        }
    }

    /// Start a key-generation run; the first action joins the room named by
    /// the job's identity.
    pub fn new(job: KeygenJob) -> (r: (KeygenFlow, KeygenAction))
        requires
            job.wf(),
        ensures
            r.0.wf(),
            r.0.phase is Joining,
            r.0.job == job,
            (r.1 matches KeygenAction::JoinRoom(room) && room@ == job.identity@),
    {
        let room = job.identity.clone();
        let flow = KeygenFlow { phase: KeygenPhase::Joining, job, failure: None };
        (flow, KeygenAction::JoinRoom(room))
    }

    /// One decision of the key-generation run.
    pub fn step(&mut self, e: KeygenEvent) -> (a: KeygenAction)
        requires
            old(self).wf(),
            old(self).accepts(e),
        ensures
            final(self).wf(),
            final(self).job == old(self).job,
            (e is Joined ==> (a == (KeygenAction::RunProtocol {
                index: old(self).job.index,
                threshold: old(self).job.threshold,
                parties: old(self).job.parties,
            }) && final(self).phase is Running)),
            (e matches KeygenEvent::JoinFailed(err) ==> (a == KeygenAction::Fail(
                KeygenError::Relay(err),
            ) && final(self).phase is Failed && final(self).failure == Some(
                KeygenError::Relay(err),
            ))),
            (e matches KeygenEvent::Done(material, public_key) ==> ((
            a matches KeygenAction::Finish(share)
                && share.identity@ == old(self).job.identity@
                && share.threshold == old(self).job.threshold
                && share.parties == old(self).job.parties
                && share.index == old(self).job.index
                && share.public_key == public_key
                && share.material == material
                && share.wf()) && final(self).phase is Completed)),
            (e matches KeygenEvent::Fault(err) ==> (a == KeygenAction::Fail(
                KeygenError::Protocol(err),
            ) && final(self).phase is Failed && final(self).failure == Some(
                KeygenError::Protocol(err),
            ))),
    {
        match e {
            KeygenEvent::Joined => {
                self.phase = KeygenPhase::Running;
                KeygenAction::RunProtocol {
                    index: self.job.index,
                    threshold: self.job.threshold,
                    parties: self.job.parties,
                }
            },
            KeygenEvent::JoinFailed(err) => {
                self.phase = KeygenPhase::Failed;
                self.failure = Some(KeygenError::Relay(err));
                KeygenAction::Fail(KeygenError::Relay(err))
            },
            KeygenEvent::Done(material, public_key) => {
                self.phase = KeygenPhase::Completed;
                KeygenAction::Finish(
                    LocalKeyShare {
                        identity: self.job.identity.clone(),
                        threshold: self.job.threshold,
                        parties: self.job.parties,
                        index: self.job.index,
                        public_key,
                        material,
                    },
                )
            },
            KeygenEvent::Fault(err) => {
                self.phase = KeygenPhase::Failed;
                self.failure = Some(KeygenError::Protocol(err));
                KeygenAction::Fail(KeygenError::Protocol(err))
            },
        }
    }
}

} // verus!
