use vstd::prelude::*;
use crate::digest::{clone_bytes, derive_digest, digest_of};
use crate::errors::{AggregationError, ProtocolError, RelayError, SignError};
use crate::keyshare::SigningJob;
use crate::message::Message;
use crate::rooms::{offline_room, offline_room_id, online_room, online_room_id};

verus! {

/// One party's opaque contribution toward an aggregate signature; not
/// individually verifiable.
pub struct PartialSig {
    pub payload: Vec<u8>,
}

impl View for PartialSig {
    type V = Seq<u8>;

    open spec fn view(&self) -> Seq<u8> {
        self.payload@
    }
}

/// Mathematical model of a partial-signature collector.
pub struct CollectorModel {
    pub needed: nat,
    pub got: Seq<Seq<u8>>,
}

/// A collector that is still waiting for every peer contribution.
pub open spec fn fresh_collector_model(needed: nat) -> CollectorModel {
    CollectorModel { needed, got: Seq::empty() }
}

/// One arrival: absorbed while the collector is incomplete, ignored after.
pub open spec fn absorb_model(m: CollectorModel, p: Seq<u8>) -> CollectorModel {
    if m.got.len() == m.needed {
        m
    } else {
        CollectorModel { needed: m.needed, got: m.got.push(p) }
    }
}

/// A whole arrival sequence, absorbed in order.
pub open spec fn absorb_all(m: CollectorModel, arrivals: Seq<Seq<u8>>) -> CollectorModel
    decreases arrivals.len(),
{
    if arrivals.len() == 0 {
        m
    } else {
        absorb_model(absorb_all(m, arrivals.drop_last()), arrivals.last())
    }
}

/// Collection completes exactly upon the `needed`-th distinct arrival: fewer
/// arrivals never complete it, and once complete it keeps exactly the first
/// `needed` arrivals observed, ignoring any later ones.
pub proof fn lemma_collection_threshold(needed: nat, arrivals: Seq<Seq<u8>>)
    ensures
        absorb_all(fresh_collector_model(needed), arrivals).needed == needed,
        (absorb_all(fresh_collector_model(needed), arrivals).got.len() == needed) <==> arrivals.len()
            >= needed,
        absorb_all(fresh_collector_model(needed), arrivals).got == arrivals.take(
            if arrivals.len() < needed {
                arrivals.len() as int
            } else {
                needed as int
            },
        ),
    decreases arrivals.len(),
{
    if arrivals.len() == 0 {
        assert(arrivals.take(0) =~= Seq::<Seq<u8>>::empty());
    } else {
        let pre = arrivals.drop_last();
        lemma_collection_threshold(needed, pre);
        let m = absorb_all(fresh_collector_model(needed), pre);
        if pre.len() >= needed {
            assert(arrivals.take(needed as int) =~= pre.take(needed as int));
        } else {
            assert(pre.take(pre.len() as int) =~= pre);
            assert(m.got.push(arrivals.last()) =~= arrivals.take(arrivals.len() as int));
            if arrivals.len() < needed {
                assert(arrivals.take(arrivals.len() as int) =~= arrivals);
            }
        }
    }
}

/// Gathers inbound peer partial signatures until exactly `needed` distinct
/// arrivals are observed; arrival order is irrelevant and sender identity is
/// not separately validated at this layer.
pub struct Collector {
    pub needed: usize,
    pub got: Vec<PartialSig>,
}

impl View for Collector {
    type V = CollectorModel;

    open spec fn view(&self) -> CollectorModel {
        CollectorModel {
            needed: self.needed as nat,
            got: self.got@.map_values(|p: PartialSig| p@),
        }
    }
}

impl Collector {
    pub open spec fn wf(&self) -> bool {
        self.got@.len() <= self.needed
    }

    pub open spec fn complete(&self) -> bool {
        self.got@.len() == self.needed
    }

    /// Signing with `parties` participants needs one partial signature from
    /// every peer: exactly `parties - 1` arrivals.
    pub fn new(parties: u16) -> (r: Collector)
        requires
            parties >= 2,
        ensures
            r.needed == parties - 1,
            r.got@ == Seq::<PartialSig>::empty(),
            r@ == fresh_collector_model((parties - 1) as nat),
            r.wf(),
            !r.complete(),
    {
        let r = Collector { needed: (parties - 1) as usize, got: Vec::new() };
        proof {
            assert(r.got@.map_values(|p: PartialSig| p@) =~= Seq::<Seq<u8>>::empty());
        }
        r
    }

    pub fn is_complete(&self) -> (r: bool)
        ensures
            r == self.complete(),
    {
        self.got.len() == self.needed
    }

    /// Absorb one arrival while incomplete; a completed collector ignores
    /// further arrivals.
    pub fn absorb(&mut self, p: PartialSig)
        requires
            old(self).wf(),
        ensures
            final(self).wf(),
            final(self).needed == old(self).needed,
            final(self)@ == absorb_model(old(self)@, p@),
            old(self).complete() ==> *final(self) == *old(self),
            !old(self).complete() ==> final(self).got@ == old(self).got@.push(p),
            final(self).complete() <==> (old(self).complete() || old(self).got@.len() + 1
                == old(self).needed),
    {
        if self.got.len() < self.needed {
            let ghost before = self.got@;
            self.got.push(p);
            proof {
                assert(self.got@.map_values(|q: PartialSig| q@) =~= before.map_values(
                    |q: PartialSig| q@,
                ).push(p@));
            }
        }
    }
}

/// Phases of one two-phase signing run, in order; `Completed` and `Failed`
/// are terminal.
#[derive(Clone, Copy, PartialEq, Eq, Structural, Debug)]
pub enum SignPhase {
    ParsingShare,
    JoiningOffline,
    OfflineRunning,
    JoiningOnline,
    ComputingPartial,
    Collecting,
    Combining,
    Completed,
    Failed,
}

/// What the surrounding run reports to the signing flow.
pub enum SignEvent {
    ShareParsed,
    ShareUnparseable,
    OfflineJoined(u16),
    OfflineJoinFailed(RelayError),
    OfflineDone,
    OfflineFault(ProtocolError),
    OnlineJoined(u16),
    OnlineJoinFailed(RelayError),
    PartialComputed(PartialSig),
    PartialComputeFailed,
    PeerPartial(PartialSig),
    InboundClosed,
    PartialsMalformed,
    Combined(Vec<u8>),
    CombineFailed,
}

/// What the signing flow decides; the only channel through which a run may
/// touch the relay or the signer.
pub enum SignAction {
    /// Parse the stored share material into the cryptographic key share.
    ParseShare,
    /// Join the offline room of the session.
    JoinOffline(String),
    /// Drive the offline-stage state machine to completion under the joined
    /// index.
    RunOffline(u16),
    /// Join the online room of the session.
    JoinOnline(String),
    /// Combine this digest with the completed offline artifact into the local
    /// partial signature.
    ComputePartial(Vec<u8>),
    /// Broadcast the local partial signature to all peers.
    BroadcastPartial(Message),
    /// Await the next inbound peer partial signature.
    AwaitPartial,
    /// Combine the local and collected partial signatures into the final
    /// signature.
    Combine(Vec<PartialSig>),
    /// Return the serialized final signature.
    Emit(Vec<u8>),
    /// Abort the whole run.
    Fail(SignError),
}

/// The two-phase Sign Orchestrator as a decision machine: offline
/// precomputation in `"{session}-offline"`, then partial-signature exchange
/// and aggregation in `"{session}-online"`. Each relay or signer outcome is
/// reported as one event; the returned action is performed before the next
/// event is reported. Terminal phases accept no event, so a failed run can
/// never touch the network again.
pub struct SignFlow {
    pub phase: SignPhase,
    pub session: String,
    pub message: Vec<u8>,
    pub parties: u16,
    pub online_index: Option<u16>,
    pub collector: Collector,
    pub failure: Option<SignError>,
    pub signature: Option<Vec<u8>>,
    /// Whether the stored share material failed to parse.
    pub share_parse_failed: Ghost<bool>,
    /// Whether joining the offline room failed.
    pub offline_join_failed: Ghost<bool>,
    /// How many partial-signature broadcasts this run has issued.
    pub partial_broadcasts: Ghost<nat>,
}

impl SignFlow {
    pub open spec fn before_online(&self) -> bool {
        self.phase is ParsingShare || self.phase is JoiningOffline
            || self.phase is OfflineRunning || self.phase is JoiningOnline
            || self.phase is ComputingPartial
    }

    pub open spec fn after_broadcast(&self) -> bool {
        self.phase is Collecting || self.phase is Combining || self.phase is Completed
    }

    pub open spec fn wf(&self) -> bool {
        &&& self.parties >= 2
        &&& self.collector.wf()
        &&& self.collector.needed == self.parties - 1
        &&& (self.share_parse_failed@ ==> (self.phase is Failed && self.partial_broadcasts@ == 0))
        &&& (self.offline_join_failed@ ==> (self.phase is Failed && self.partial_broadcasts@ == 0))
        &&& (self.before_online() ==> self.partial_broadcasts@ == 0)
        &&& (self.before_online() ==> self.collector.got@.len() == 0)
        &&& (self.after_broadcast() ==> self.partial_broadcasts@ == 1)
        &&& self.partial_broadcasts@ <= 1
        &&& (self.phase is Collecting ==> !self.collector.complete())
        &&& ((self.phase is ComputingPartial || self.after_broadcast())
            ==> self.online_index is Some)
        &&& (self.phase is Completed ==> self.signature is Some)
        &&& (self.phase is Failed ==> self.failure is Some)
    }

    /// Which events the current phase can take; terminal phases take none.
    pub open spec fn accepts(&self, e: SignEvent) -> bool {
        match e {
            SignEvent::ShareParsed => self.phase is ParsingShare,
            SignEvent::ShareUnparseable => self.phase is ParsingShare,
            SignEvent::OfflineJoined(_) => self.phase is JoiningOffline,
            SignEvent::OfflineJoinFailed(_) => self.phase is JoiningOffline,
            SignEvent::OfflineDone => self.phase is OfflineRunning,
            SignEvent::OfflineFault(_) => self.phase is OfflineRunning,
            SignEvent::OnlineJoined(_) => self.phase is JoiningOnline,
            SignEvent::OnlineJoinFailed(_) => self.phase is JoiningOnline,
            SignEvent::PartialComputed(_) => self.phase is ComputingPartial,
            SignEvent::PartialComputeFailed => self.phase is ComputingPartial,
            SignEvent::PeerPartial(_) => self.phase is Collecting,
            SignEvent::InboundClosed => self.phase is Collecting,
            SignEvent::PartialsMalformed => self.phase is Combining,
            SignEvent::Combined(_) => self.phase is Combining,
            SignEvent::CombineFailed => self.phase is Combining,
        }
    }

    pub fn accepts_event(&self, e: &SignEvent) -> (r: bool)
        ensures
            r == self.accepts(*e),
    {
        match e {
            SignEvent::ShareParsed => matches!(self.phase, SignPhase::ParsingShare),
            SignEvent::ShareUnparseable => matches!(self.phase, SignPhase::ParsingShare),
            SignEvent::OfflineJoined(_) => matches!(self.phase, SignPhase::JoiningOffline),
            SignEvent::OfflineJoinFailed(_) => matches!(self.phase, SignPhase::JoiningOffline),
            SignEvent::OfflineDone => matches!(self.phase, SignPhase::OfflineRunning),
            SignEvent::OfflineFault(_) => matches!(self.phase, SignPhase::OfflineRunning),
            SignEvent::OnlineJoined(_) => matches!(self.phase, SignPhase::JoiningOnline),
            SignEvent::OnlineJoinFailed(_) => matches!(self.phase, SignPhase::JoiningOnline),
            SignEvent::PartialComputed(_) => matches!(self.phase, SignPhase::ComputingPartial),
            SignEvent::PartialComputeFailed => matches!(self.phase, SignPhase::ComputingPartial),
            SignEvent::PeerPartial(_) => matches!(self.phase, SignPhase::Collecting),
            SignEvent::InboundClosed => matches!(self.phase, SignPhase::Collecting),
            SignEvent::PartialsMalformed => matches!(self.phase, SignPhase::Combining),
            SignEvent::Combined(_) => matches!(self.phase, SignPhase::Combining),
            SignEvent::CombineFailed => matches!(self.phase, SignPhase::Combining),
        }
    }

    /// Start a signing run over `parties` participants; the first action
    /// parses the stored share material, before any room is joined.
    pub fn new(job: SigningJob, parties: u16) -> (r: (SignFlow, SignAction))
        requires
            parties >= 2,
        ensures
            r.0.wf(),
            r.0.phase is ParsingShare,
            r.0.session == job.session,
            r.0.message == job.message,
            r.0.parties == parties,
            r.0.share_parse_failed@ == false,
            r.0.offline_join_failed@ == false,
            r.0.partial_broadcasts@ == 0,
            r.1 is ParseShare,
    {
        let flow = SignFlow {
            phase: SignPhase::ParsingShare,
            session: job.session,
            message: job.message,
            parties,
            online_index: None,
            collector: Collector::new(parties),
            failure: None,
            signature: None,
            share_parse_failed: Ghost(false),
            offline_join_failed: Ghost(false),
            partial_broadcasts: Ghost(0),
        };
        (flow, SignAction::ParseShare)
    }

    /// One decision of the signing run.
    pub fn step(&mut self, e: SignEvent) -> (a: SignAction)
        requires
            old(self).wf(),
            old(self).accepts(e),
        ensures
            final(self).wf(),
            final(self).session == old(self).session,
            final(self).parties == old(self).parties,
            final(self).share_parse_failed@ == (old(self).share_parse_failed@ || (
            e is ShareUnparseable)),
            final(self).offline_join_failed@ == (old(self).offline_join_failed@ || (
            e matches SignEvent::OfflineJoinFailed(_))),
            (e is ShareParsed ==> ((a matches SignAction::JoinOffline(room) && room@
                == offline_room_id(old(self).session@)) && final(self).phase is JoiningOffline)),
            (e is ShareUnparseable ==> (a == SignAction::Fail(SignError::MalformedShare)
                && final(self).phase is Failed && final(self).failure == Some(
                SignError::MalformedShare,
            ) && final(self).partial_broadcasts@ == 0)),
            (a matches SignAction::JoinOffline(_) ==> e is ShareParsed),
            (a matches SignAction::JoinOnline(_) ==> e is OfflineDone),
            (e matches SignEvent::OfflineJoined(i) ==> (a == SignAction::RunOffline(i) && final(self).phase is OfflineRunning)),
            (e matches SignEvent::OfflineJoinFailed(err) ==> (a == SignAction::Fail(
                SignError::Relay(err),
            ) && final(self).phase is Failed && final(self).failure == Some(
                SignError::Relay(err),
            ) && final(self).partial_broadcasts@ == 0)),
            (e is OfflineDone ==> ((a matches SignAction::JoinOnline(room) && room@
                == online_room_id(old(self).session@)) && final(self).phase is JoiningOnline)),
            (e matches SignEvent::OfflineFault(err) ==> (a == SignAction::Fail(
                SignError::Protocol(err),
            ) && final(self).phase is Failed && final(self).failure == Some(
                SignError::Protocol(err),
            ))),
            (e matches SignEvent::OnlineJoined(i) ==> ((a matches SignAction::ComputePartial(d)
                && d@ == digest_of(old(self).message@)) && final(self).phase is ComputingPartial
                && final(self).online_index == Some(i))),
            (e matches SignEvent::OnlineJoinFailed(err) ==> (a == SignAction::Fail(
                SignError::Relay(err),
            ) && final(self).phase is Failed && final(self).failure == Some(
                SignError::Relay(err),
            ))),
            (e matches SignEvent::PartialComputed(p) ==> ((a matches SignAction::BroadcastPartial(m)
                && m.receiver is None && Some(m.sender) == old(self).online_index && m.body@ == p@)
                && final(self).phase is Collecting && final(self).partial_broadcasts@ == 1 && final(self).collector.got@ == Seq::<PartialSig>::empty())),
            (e is PartialComputeFailed ==> (a == SignAction::Fail(
                SignError::Aggregation(AggregationError::InvalidCombination),
            ) && final(self).phase is Failed && final(self).failure == Some(
                SignError::Aggregation(AggregationError::InvalidCombination),
            ))),
            (e matches SignEvent::PeerPartial(p) ==> ((old(self).collector.got@.len() + 1
                < old(self).collector.needed) ==> (a is AwaitPartial
                && final(self).phase is Collecting
                && final(self).collector.got@ == old(self).collector.got@.push(p)))),
            (e matches SignEvent::PeerPartial(p) ==> ((old(self).collector.got@.len() + 1
                == old(self).collector.needed) ==> ((a matches SignAction::Combine(v)
                && v@ == old(self).collector.got@.push(p)) && final(self).phase is Combining))),
            (e is InboundClosed ==> (a == SignAction::Fail(
                SignError::Aggregation(AggregationError::WrongCount),
            ) && final(self).phase is Failed && final(self).failure == Some(
                SignError::Aggregation(AggregationError::WrongCount),
            ))),
            (e is PartialsMalformed ==> (a == SignAction::Fail(
                SignError::Protocol(ProtocolError::MalformedMessage),
            ) && final(self).phase is Failed && final(self).failure == Some(
                SignError::Protocol(ProtocolError::MalformedMessage),
            ))),
            (e matches SignEvent::Combined(sig) ==> ((a matches SignAction::Emit(s) && s == sig)
                && final(self).phase is Completed && (final(self).signature matches Some(kept)
                && kept@ == sig@))),
            (e is CombineFailed ==> (a == SignAction::Fail(
                SignError::Aggregation(AggregationError::InvalidCombination),
            ) && final(self).phase is Failed && final(self).failure == Some(
                SignError::Aggregation(AggregationError::InvalidCombination),
            ))),
    {
        match e {
            SignEvent::ShareParsed => {
                self.phase = SignPhase::JoiningOffline;
                SignAction::JoinOffline(offline_room(self.session.as_str()))
            },
            SignEvent::ShareUnparseable => {
                self.phase = SignPhase::Failed;
                self.failure = Some(SignError::MalformedShare);
                proof {
                    self.share_parse_failed@ = true;
                }
                SignAction::Fail(SignError::MalformedShare)
            },
            SignEvent::OfflineJoined(i) => {
                self.phase = SignPhase::OfflineRunning;
                SignAction::RunOffline(i)
            },
            SignEvent::OfflineJoinFailed(err) => {
                self.phase = SignPhase::Failed;
                self.failure = Some(SignError::Relay(err));
                proof {
                    self.offline_join_failed@ = true;
                }
                SignAction::Fail(SignError::Relay(err))
            },
            SignEvent::OfflineDone => {
                self.phase = SignPhase::JoiningOnline;
                SignAction::JoinOnline(online_room(self.session.as_str()))
            },
            SignEvent::OfflineFault(err) => {
                self.phase = SignPhase::Failed;
                self.failure = Some(SignError::Protocol(err));
                SignAction::Fail(SignError::Protocol(err))
            },
            SignEvent::OnlineJoined(i) => {
                self.phase = SignPhase::ComputingPartial;
                self.online_index = Some(i);
                SignAction::ComputePartial(derive_digest(clone_bytes(&self.message)))
            },
            SignEvent::OnlineJoinFailed(err) => {
                self.phase = SignPhase::Failed;
                self.failure = Some(SignError::Relay(err));
                SignAction::Fail(SignError::Relay(err))
            },
            SignEvent::PartialComputed(p) => {
                self.phase = SignPhase::Collecting;
                proof {
                    self.partial_broadcasts@ = 1;
                }
                let sender = match self.online_index {
                    Some(i) => i,
                    None => 0,  // unreachable: the online phase was joined
                };
                SignAction::BroadcastPartial(
                    Message { sender, receiver: None, body: p.payload },
                )
            },
            SignEvent::PartialComputeFailed => {
                self.phase = SignPhase::Failed;
                self.failure = Some(
                    SignError::Aggregation(AggregationError::InvalidCombination),
                );
                SignAction::Fail(SignError::Aggregation(AggregationError::InvalidCombination))
            },
            SignEvent::PeerPartial(p) => {
                self.collector.absorb(p);
                if self.collector.is_complete() {
                    let mut sigs: Vec<PartialSig> = Vec::new();
                    core::mem::swap(&mut sigs, &mut self.collector.got);
                    self.phase = SignPhase::Combining;
                    SignAction::Combine(sigs)
                } else {
                    SignAction::AwaitPartial
                }
            },
            SignEvent::InboundClosed => {
                self.phase = SignPhase::Failed;
                self.failure = Some(SignError::Aggregation(AggregationError::WrongCount));
                SignAction::Fail(SignError::Aggregation(AggregationError::WrongCount))
            },
            SignEvent::PartialsMalformed => {
                self.phase = SignPhase::Failed;
                self.failure = Some(SignError::Protocol(ProtocolError::MalformedMessage));
                SignAction::Fail(SignError::Protocol(ProtocolError::MalformedMessage))
            },
            SignEvent::Combined(sig) => {
                self.phase = SignPhase::Completed;
                self.signature = Some(clone_bytes(&sig));
                SignAction::Emit(sig)
            },
            SignEvent::CombineFailed => {
                self.phase = SignPhase::Failed;
                self.failure = Some(
                    SignError::Aggregation(AggregationError::InvalidCombination),
                );
                SignAction::Fail(SignError::Aggregation(AggregationError::InvalidCombination))
            },
        }
    }

    /// A relay-join failure during the offline phase leaves the run terminally
    /// failed with no partial-signature broadcast ever issued, and no further
    /// event is accepted, so no network activity can happen in the online
    /// phase.
    pub proof fn lemma_offline_join_failure_quiesces(self)
        requires
            self.wf(),
            self.offline_join_failed@,
        ensures
            self.phase is Failed,
            self.partial_broadcasts@ == 0,
            forall|e: SignEvent| !self.accepts(e),
    {
    }

    /// Stored share material that does not parse leaves the run terminally
    /// failed before any room is joined: parsing precedes the offline join,
    /// no partial signature was broadcast, and no further event is accepted,
    /// so no network activity happens in either phase.
    pub proof fn lemma_parse_failure_quiesces(self)
        requires
            self.wf(),
            self.share_parse_failed@,
        ensures
            self.phase is Failed,
            self.partial_broadcasts@ == 0,
            forall|e: SignEvent| !self.accepts(e),
    {
    }
}

} // verus!
