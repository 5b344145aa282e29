use tss_core::dispatch::{
    JobFailure, KeygenJobAction, KeygenJobEvent, KeygenJobFlow, SignJobAction, SignJobEvent,
    SignJobFlow,
};
use tss_core::errors::{
    KeygenError, ProtocolError, QueueError, RelayError, SignError, StoreError,
};
use tss_core::executor::{ExecAction, ExecEvent, ExecPhase, RoundExecutor};
use tss_core::keygenflow::{KeygenAction, KeygenEvent, KeygenFlow, KeygenPhase};
use tss_core::keyshare::{KeygenJob, LocalKeyShare, SigningJob};
use tss_core::message::Message;
use tss_core::service::{
    new_key_success, on_new_key_keygen, on_new_key_notify, on_share_lookup, on_sign_outcome,
    on_simulation, SimulationOutcome,
};
use tss_core::signflow::{Collector, PartialSig, SignAction, SignEvent, SignFlow, SignPhase};

fn msg(sender: u16, body: &[u8]) -> Message {
    Message { sender, receiver: None, body: body.to_vec() }
}

fn psig(b: &[u8]) -> PartialSig {
    PartialSig { payload: b.to_vec() }
}

fn signing_job(message: &[u8], session: &str) -> SigningJob {
    SigningJob {
        message: message.to_vec(),
        session: session.to_string(),
        identity: "alice".to_string(),
    }
}

#[test]
fn executor_flushes_applies_and_halts() {
    let mut exec = RoundExecutor::new();
    let a = exec.step(ExecEvent::Outgoing(vec![msg(1, b"r1")]));
    assert!(matches!(a, ExecAction::Flush(ref v) if v.len() == 1));
    let a = exec.step(ExecEvent::Arrived(msg(2, b"r1")));
    assert!(matches!(a, ExecAction::Apply(ref m) if m.sender == 2));
    let a = exec.step(ExecEvent::Outgoing(Vec::new()));
    assert!(matches!(a, ExecAction::Flush(ref v) if v.is_empty()));
    let a = exec.step(ExecEvent::Finished);
    assert!(matches!(a, ExecAction::Halt));
    assert_eq!(exec.phase, ExecPhase::Finished);
}

#[test]
fn executor_enforces_drain_await_alternation() {
    // A fresh executor drains first: it takes no arrival and no stream close
    // until the pending messages were flushed, and no second flush before
    // the next arrival.
    let mut exec = RoundExecutor::new();
    assert!(!exec.accepts_event(&ExecEvent::Arrived(msg(2, b"early"))));
    assert!(!exec.accepts_event(&ExecEvent::SourceClosed));
    let _ = exec.step(ExecEvent::Outgoing(Vec::new()));
    assert!(!exec.accepts_event(&ExecEvent::Outgoing(Vec::new())));
    assert!(exec.accepts_event(&ExecEvent::Arrived(msg(2, b"now"))));
}

#[test]
fn executor_aborts_on_fault_and_closed_stream() {
    let mut exec = RoundExecutor::new();
    let a = exec.step(ExecEvent::Fault(ProtocolError::InconsistentRound));
    assert!(matches!(a, ExecAction::Abort(ProtocolError::InconsistentRound)));
    assert_eq!(exec.phase, ExecPhase::Aborted(ProtocolError::InconsistentRound));
    assert!(!exec.accepts_event(&ExecEvent::Outgoing(Vec::new())));

    let mut exec = RoundExecutor::new();
    let _ = exec.step(ExecEvent::Outgoing(Vec::new()));
    let a = exec.step(ExecEvent::SourceClosed);
    assert!(matches!(a, ExecAction::Abort(ProtocolError::PartiesUnreachable)));
}

#[test]
fn collector_completes_on_exactly_needed_arrivals() {
    // Three participating parties: exactly two peer partial signatures.
    let mut c = Collector::new(3);
    assert!(!c.is_complete());
    c.absorb(psig(b"p1"));
    assert!(!c.is_complete());
    c.absorb(psig(b"p2"));
    assert!(c.is_complete());
    // Later arrivals are ignored: the first two observed are kept.
    c.absorb(psig(b"p3"));
    assert_eq!(c.got.len(), 2);
    assert_eq!(c.got[0].payload, b"p1".to_vec());
    assert_eq!(c.got[1].payload, b"p2".to_vec());
}

#[test]
fn sign_flow_happy_path_in_order() {
    let (mut flow, a) = SignFlow::new(signing_job(b"deadbeef", "sess7"), 3);
    assert!(matches!(a, SignAction::ParseShare));

    let a = flow.step(SignEvent::ShareParsed);
    assert!(matches!(a, SignAction::JoinOffline(ref r) if r == "sess7-offline"));

    let a = flow.step(SignEvent::OfflineJoined(2));
    assert!(matches!(a, SignAction::RunOffline(2)));

    let a = flow.step(SignEvent::OfflineDone);
    assert!(matches!(a, SignAction::JoinOnline(ref r) if r == "sess7-online"));

    let a = flow.step(SignEvent::OnlineJoined(1));
    // The digest of hex-decodable input is its decoded byte sequence.
    assert!(matches!(a, SignAction::ComputePartial(ref d) if *d == vec![0xde, 0xad, 0xbe, 0xef]));

    let a = flow.step(SignEvent::PartialComputed(psig(b"mine")));
    match a {
        SignAction::BroadcastPartial(m) => {
            assert_eq!(m.sender, 1);
            assert_eq!(m.receiver, None);
            assert_eq!(m.body, b"mine".to_vec());
        },
        _ => panic!("expected a broadcast"),
    }

    let a = flow.step(SignEvent::PeerPartial(psig(b"p2")));
    assert!(matches!(a, SignAction::AwaitPartial));
    let a = flow.step(SignEvent::PeerPartial(psig(b"p3")));
    match a {
        SignAction::Combine(v) => {
            assert_eq!(v.len(), 2);
            assert_eq!(v[0].payload, b"p2".to_vec());
            assert_eq!(v[1].payload, b"p3".to_vec());
        },
        _ => panic!("expected combining"),
    }

    let a = flow.step(SignEvent::Combined(b"signature".to_vec()));
    assert!(matches!(a, SignAction::Emit(ref s) if *s == b"signature".to_vec()));
    assert_eq!(flow.phase, SignPhase::Completed);
    assert_eq!(flow.signature, Some(b"signature".to_vec()));
    // A finished run takes no further event.
    assert!(!flow.accepts_event(&SignEvent::PeerPartial(psig(b"late"))));
}

#[test]
fn sign_flow_non_hex_message_digest_is_raw() {
    let (mut flow, _) = SignFlow::new(signing_job(b"hello", "s"), 2);
    flow.step(SignEvent::ShareParsed);
    flow.step(SignEvent::OfflineJoined(1));
    flow.step(SignEvent::OfflineDone);
    let a = flow.step(SignEvent::OnlineJoined(1));
    assert!(matches!(a, SignAction::ComputePartial(ref d) if *d == b"hello".to_vec()));
}

#[test]
fn offline_join_failure_blocks_all_online_activity() {
    let (mut flow, _) = SignFlow::new(signing_job(b"m", "s1"), 3);
    flow.step(SignEvent::ShareParsed);
    let a = flow.step(SignEvent::OfflineJoinFailed(RelayError::Unreachable));
    assert!(matches!(a, SignAction::Fail(SignError::Relay(RelayError::Unreachable))));
    assert_eq!(flow.phase, SignPhase::Failed);
    // No event of the online phase is accepted any more, so no partial
    // signature can ever be broadcast.
    assert!(!flow.accepts_event(&SignEvent::OnlineJoined(1)));
    assert!(!flow.accepts_event(&SignEvent::PartialComputed(psig(b"p"))));
    assert!(!flow.accepts_event(&SignEvent::PeerPartial(psig(b"p"))));
    assert!(!flow.accepts_event(&SignEvent::Combined(Vec::new())));
}

#[test]
fn unparseable_share_fails_before_any_room_is_joined() {
    let (mut flow, a) = SignFlow::new(signing_job(b"m", "s0"), 2);
    // Parsing precedes joining: no join action was issued yet.
    assert!(matches!(a, SignAction::ParseShare));
    let a = flow.step(SignEvent::ShareUnparseable);
    assert!(matches!(a, SignAction::Fail(SignError::MalformedShare)));
    assert_eq!(flow.phase, SignPhase::Failed);
    assert_eq!(flow.failure.unwrap().describe(), "parse local share");
    // No event of either phase is accepted any more: no room is ever
    // joined and nothing is ever broadcast.
    assert!(!flow.accepts_event(&SignEvent::OfflineJoined(1)));
    assert!(!flow.accepts_event(&SignEvent::OnlineJoined(1)));
    assert!(!flow.accepts_event(&SignEvent::PartialComputed(psig(b"p"))));
}

#[test]
fn malformed_collected_partials_fail_the_combine() {
    let (mut flow, _) = SignFlow::new(signing_job(b"m", "s9"), 2);
    flow.step(SignEvent::ShareParsed);
    flow.step(SignEvent::OfflineJoined(1));
    flow.step(SignEvent::OfflineDone);
    flow.step(SignEvent::OnlineJoined(1));
    flow.step(SignEvent::PartialComputed(psig(b"mine")));
    let a = flow.step(SignEvent::PeerPartial(psig(b"junk")));
    assert!(matches!(a, SignAction::Combine(_)));
    let a = flow.step(SignEvent::PartialsMalformed);
    assert!(matches!(
        a,
        SignAction::Fail(SignError::Protocol(ProtocolError::MalformedMessage))
    ));
    assert_eq!(flow.phase, SignPhase::Failed);
}

#[test]
fn sign_flow_aborts_when_stream_closes_early() {
    let (mut flow, _) = SignFlow::new(signing_job(b"m", "s2"), 3);
    flow.step(SignEvent::ShareParsed);
    flow.step(SignEvent::OfflineJoined(1));
    flow.step(SignEvent::OfflineDone);
    flow.step(SignEvent::OnlineJoined(1));
    flow.step(SignEvent::PartialComputed(psig(b"mine")));
    flow.step(SignEvent::PeerPartial(psig(b"p2")));
    // Only one of the two needed arrivals came before the stream closed.
    let a = flow.step(SignEvent::InboundClosed);
    assert!(matches!(a, SignAction::Fail(SignError::Aggregation(_))));
    assert_eq!(flow.phase, SignPhase::Failed);
}

#[test]
fn sign_flow_offline_fault_aborts_before_online() {
    let (mut flow, _) = SignFlow::new(signing_job(b"m", "s3"), 2);
    flow.step(SignEvent::ShareParsed);
    flow.step(SignEvent::OfflineJoined(1));
    let a = flow.step(SignEvent::OfflineFault(ProtocolError::MalformedMessage));
    assert!(matches!(
        a,
        SignAction::Fail(SignError::Protocol(ProtocolError::MalformedMessage))
    ));
    assert!(!flow.accepts_event(&SignEvent::OnlineJoined(1)));
}

#[test]
fn keygen_flow_emits_share_with_job_parameters() {
    let job = KeygenJob::new("alice".to_string(), 1, 2, 2).unwrap();
    let (mut flow, a) = KeygenFlow::new(job);
    assert!(matches!(a, KeygenAction::JoinRoom(ref r) if r == "alice"));
    let a = flow.step(KeygenEvent::Joined);
    assert!(matches!(
        a,
        KeygenAction::RunProtocol { index: 2, threshold: 1, parties: 2 }
    ));
    let a = flow.step(KeygenEvent::Done(b"material".to_vec(), "pubkey".to_string()));
    match a {
        KeygenAction::Finish(share) => {
            assert_eq!(share.identity, "alice");
            assert_eq!(share.threshold, 1);
            assert_eq!(share.parties, 2);
            assert_eq!(share.index, 2);
            assert_eq!(share.public_key, "pubkey");
            assert_eq!(share.material, b"material".to_vec());
        },
        _ => panic!("expected a finished share"),
    }
    assert_eq!(flow.phase, KeygenPhase::Completed);
}

#[test]
fn keygen_flow_join_failure_is_terminal() {
    let job = KeygenJob::new("bob".to_string(), 1, 2, 1).unwrap();
    let (mut flow, _) = KeygenFlow::new(job);
    let a = flow.step(KeygenEvent::JoinFailed(RelayError::RoomFull));
    assert!(matches!(a, KeygenAction::Fail(KeygenError::Relay(RelayError::RoomFull))));
    assert!(!flow.accepts_event(&KeygenEvent::Joined));
    assert!(!flow.accepts_event(&KeygenEvent::Done(Vec::new(), String::new())));
}

#[test]
fn sign_delivery_handles_malformed_envelope_without_crashing() {
    let mut h = SignJobFlow::new();
    let a = h.step(SignJobEvent::EnvelopeMalformed);
    assert!(matches!(a, SignJobAction::Ack));
    assert_eq!(
        h.failure,
        Some(JobFailure::Envelope(QueueError::MalformedEnvelope))
    );
}

#[test]
fn sign_delivery_acks_only_after_report() {
    let mut h = SignJobFlow::new();
    let a = h.step(SignJobEvent::EnvelopeDecoded(signing_job(b"m", "s")));
    assert!(matches!(a, SignJobAction::ResolveShare(ref id) if id == "alice"));
    let a = h.step(SignJobEvent::ShareResolved);
    assert!(matches!(a, SignJobAction::RunSigning));
    let a = h.step(SignJobEvent::SignFinished(b"sig".to_vec()));
    assert!(matches!(a, SignJobAction::Report(ref s) if *s == b"sig".to_vec()));
    let a = h.step(SignJobEvent::ReportDelivered);
    assert!(matches!(a, SignJobAction::Ack));
    assert_eq!(h.failure, None);
}

#[test]
fn sign_delivery_missing_share_is_dropped_and_acked() {
    let mut h = SignJobFlow::new();
    h.step(SignJobEvent::EnvelopeDecoded(signing_job(b"m", "s")));
    let a = h.step(SignJobEvent::ShareMissing(StoreError::NotFound));
    assert!(matches!(a, SignJobAction::Ack));
    assert_eq!(h.failure, Some(JobFailure::Store(StoreError::NotFound)));
}

#[test]
fn keygen_delivery_persists_then_acks() {
    let mut h = KeygenJobFlow::new();
    let job = KeygenJob::new("carol".to_string(), 1, 2, 1).unwrap();
    let a = h.step(KeygenJobEvent::EnvelopeDecoded(job));
    assert!(matches!(a, KeygenJobAction::RunKeygen(_)));
    let share = LocalKeyShare {
        identity: "carol".to_string(),
        threshold: 1,
        parties: 2,
        index: 1,
        public_key: "pk".to_string(),
        material: b"m".to_vec(),
    };
    let a = h.step(KeygenJobEvent::KeygenFinished(share));
    assert!(matches!(a, KeygenJobAction::Persist(_)));
    let a = h.step(KeygenJobEvent::PersistSucceeded);
    assert!(matches!(a, KeygenJobAction::Ack));
    assert_eq!(h.failure, None);
}

#[test]
fn keygen_delivery_conflict_is_recorded_and_acked() {
    let mut h = KeygenJobFlow::new();
    let job = KeygenJob::new("dave".to_string(), 1, 2, 1).unwrap();
    h.step(KeygenJobEvent::EnvelopeDecoded(job));
    let share = LocalKeyShare {
        identity: "dave".to_string(),
        threshold: 1,
        parties: 2,
        index: 1,
        public_key: "pk".to_string(),
        material: b"m".to_vec(),
    };
    h.step(KeygenJobEvent::KeygenFinished(share));
    let a = h.step(KeygenJobEvent::PersistFailed(StoreError::Conflict));
    assert!(matches!(a, KeygenJobAction::Ack));
    assert_eq!(h.failure, Some(JobFailure::Store(StoreError::Conflict)));
}

#[test]
fn simulation_outcomes_map_to_exact_causes() {
    let r = on_simulation(SimulationOutcome::CallFailed).unwrap_err();
    assert!(!r.success);
    assert_eq!(r.info, Some("fail to call tx sender".to_string()));
    let r = on_simulation(SimulationOutcome::TextUnavailable).unwrap_err();
    assert_eq!(r.info, Some("fail to get tx sender response text".to_string()));
    let r = on_simulation(SimulationOutcome::ParseFailed).unwrap_err();
    assert_eq!(r.info, Some("fail on parsing tx sender response".to_string()));
    let r = on_simulation(SimulationOutcome::Rejected).unwrap_err();
    assert_eq!(r.info, Some("tx simulation failed".to_string()));
    let ok = on_simulation(SimulationOutcome::Approved {
        message: "deadbeef".to_string(),
        id: 9,
    });
    assert_eq!(ok.unwrap(), ("deadbeef".to_string(), 9));
}

#[test]
fn share_lookup_and_sign_outcome_responses() {
    let r = on_share_lookup(Err(StoreError::NotFound)).unwrap_err();
    assert!(!r.success);
    assert_eq!(r.info, Some("no share stored for identity".to_string()));

    let resp = on_sign_outcome(Ok(b"sig".to_vec()));
    assert!(resp.success);
    assert_eq!(resp.info, None);
    let resp = on_sign_outcome(Err(SignError::Relay(RelayError::Timeout)));
    assert!(!resp.success);
    assert_eq!(resp.info, Some("relay timed out".to_string()));
}

#[test]
fn new_key_responses() {
    let r = on_new_key_notify("7".to_string(), false).unwrap_err();
    assert!(!r.success);
    assert_eq!(r.user_id, "7");
    assert_eq!(r.info, Some("fail to call tx sender".to_string()));
    assert_eq!(on_new_key_notify("7".to_string(), true).unwrap(), "7");

    let r = on_new_key_keygen(
        "7".to_string(),
        Err(KeygenError::Relay(RelayError::Unreachable)),
    )
    .unwrap_err();
    assert!(!r.success);
    assert_eq!(r.info, Some("relay unreachable".to_string()));

    let resp = new_key_success("7".to_string(), "pubkey".to_string());
    assert!(resp.success);
    assert_eq!(resp.user_id, "7");
    assert_eq!(resp.address, Some("pubkey".to_string()));
    assert_eq!(resp.info, None);
}
