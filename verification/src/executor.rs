use vstd::prelude::*;
use crate::errors::ProtocolError;
use crate::message::{Message, MsgView};

verus! {

/// Where a protocol run stands: still exchanging rounds, completed, or
/// aborted by an unrecoverable fault (no rollback, no partial retry).
#[derive(Clone, Copy, PartialEq, Eq, Structural, Debug)]
pub enum ExecPhase {
    Running,
    Finished,
    Aborted(ProtocolError),
}

/// Which half of the loop the executor is in: draining the machine's
/// pending outgoing messages, or awaiting the next inbound message.
#[derive(Clone, Copy, PartialEq, Eq, Structural, Debug)]
pub enum ExecMode {
    Draining,
    Awaiting,
}

/// What the surrounding run reports to the executor.
pub enum ExecEvent {
    /// The state machine produced pending outgoing messages for this round.
    Outgoing(Vec<Message>),
    /// The next inbound message arrived.
    Arrived(Message),
    /// The state machine signalled completion.
    Finished,
    /// The state machine signalled an unrecoverable fault.
    Fault(ProtocolError),
    /// The inbound stream closed before the machine completed.
    SourceClosed,
}

/// What the executor decides in response: the only channel through which a
/// run may touch the network or the state machine.
pub enum ExecAction {
    /// Push all pending outgoing messages to the outbound sink, then await.
    Flush(Vec<Message>),
    /// Feed the arrived message to the state machine, then ask it to advance.
    Apply(Message),
    /// Return the machine's output.
    Halt,
    /// Return the fault; the run is over.
    Abort(ProtocolError),
}

/// Drives one round-based protocol run: drain and send all pending outgoing
/// messages, await the next inbound message, feed it to the state machine,
/// repeat until the machine completes or faults. The executor itself
/// enforces the loop discipline: pending messages are drained and flushed
/// before awaiting, exactly one apply per arrival, strictly in arrival
/// order; round buffering belongs to the state machine, not to the
/// executor. A terminal executor accepts no further event, so nothing is
/// sent or applied after completion or a fault.
pub struct RoundExecutor {
    pub phase: ExecPhase,
    pub mode: ExecMode,
    /// Every message pushed to the outbound sink, in send order.
    pub sent: Ghost<Seq<MsgView>>,
    /// Every message fed to the state machine, in arrival order.
    pub applied: Ghost<Seq<MsgView>>,
}

impl RoundExecutor {
    pub open spec fn running(&self) -> bool {
        self.phase is Running
    }

    /// Which events the executor can take: the machine's pending messages
    /// only while draining, an arrival or a closed stream only while
    /// awaiting, completion or a fault at either point; a terminal executor
    /// takes nothing.
    pub open spec fn accepts(&self, e: ExecEvent) -> bool {
        self.running() && match e {
            ExecEvent::Outgoing(_) => self.mode is Draining,
            ExecEvent::Arrived(_) => self.mode is Awaiting,
            ExecEvent::Finished => true,
            ExecEvent::Fault(_) => true,
            ExecEvent::SourceClosed => self.mode is Awaiting,
        }
    }

    pub fn accepts_event(&self, e: &ExecEvent) -> (r: bool)
        ensures
            r == self.accepts(*e),
    {
        matches!(self.phase, ExecPhase::Running) && match e {
            ExecEvent::Outgoing(_) => matches!(self.mode, ExecMode::Draining),
            ExecEvent::Arrived(_) => matches!(self.mode, ExecMode::Awaiting),
            ExecEvent::Finished => true,
            ExecEvent::Fault(_) => true,
            ExecEvent::SourceClosed => matches!(self.mode, ExecMode::Awaiting),
        }
    }

    pub fn new() -> (r: RoundExecutor)
        ensures
            r.running(),
            r.mode is Draining,
            r.sent@ == Seq::<MsgView>::empty(),
            r.applied@ == Seq::<MsgView>::empty(),
    {
        RoundExecutor {
            phase: ExecPhase::Running,
            mode: ExecMode::Draining,
            sent: Ghost(Seq::empty()),
            applied: Ghost(Seq::empty()),
        }
    }

    /// One decision of the executor loop. Only an accepted event is taken;
    /// the caller performs the returned action before reporting the next
    /// event.
    pub fn step(&mut self, e: ExecEvent) -> (a: ExecAction)
        requires
            old(self).accepts(e),
        ensures
            (e matches ExecEvent::Outgoing(v) ==> (a == ExecAction::Flush(v)
                && final(self).running() && final(self).mode is Awaiting
                && final(self).sent@ == old(self).sent@ + v@.map_values(|m: Message| m@)
                && final(self).applied@ == old(self).applied@)),
            (e matches ExecEvent::Arrived(m) ==> (a == ExecAction::Apply(m)
                && final(self).running() && final(self).mode is Draining
                && final(self).applied@ == old(self).applied@.push(m@)
                && final(self).sent@ == old(self).sent@)),
            (e is Finished ==> (a == ExecAction::Halt && final(self).phase is Finished)),
            (e matches ExecEvent::Fault(err) ==> (a == ExecAction::Abort(err)
                && final(self).phase == ExecPhase::Aborted(err))),
            (e is SourceClosed ==> (a == ExecAction::Abort(ProtocolError::PartiesUnreachable)
                && final(self).phase == ExecPhase::Aborted(ProtocolError::PartiesUnreachable))),
            !(final(self).running()) ==> (final(self).sent@ == old(self).sent@
                && final(self).applied@ == old(self).applied@),
    {
        match e {
            ExecEvent::Outgoing(v) => {
                self.mode = ExecMode::Awaiting;
                proof {
                    self.sent@ = self.sent@ + v@.map_values(|m: Message| m@);
                }
                ExecAction::Flush(v)
            },
            ExecEvent::Arrived(m) => {
                self.mode = ExecMode::Draining;
                proof {
                    self.applied@ = self.applied@.push(m@);
                }
                ExecAction::Apply(m)
            },
            ExecEvent::Finished => {
                self.phase = ExecPhase::Finished;
                ExecAction::Halt
            },
            ExecEvent::Fault(err) => {
                self.phase = ExecPhase::Aborted(err);
                ExecAction::Abort(err)
            },
            ExecEvent::SourceClosed => {
                self.phase = ExecPhase::Aborted(ProtocolError::PartiesUnreachable);
                ExecAction::Abort(ProtocolError::PartiesUnreachable)
            },
        }
    }
}

} // verus!
