use tss_core::digest::{clone_bytes, derive_digest};
use tss_core::errors::{
    AggregationError, KeygenError, ProtocolError, QueueError, RelayError, SignError, StoreError,
};
use tss_core::index;
use tss_core::keyshare::{KeyShareStore, KeygenJob, LocalKeyShare};
use tss_core::rooms::{offline_room, online_room};

#[test]
fn index_banner() {
    assert_eq!(index(), "Hello, world!");
}

#[test]
fn hex_input_is_signed_over_decoded_bytes() {
    let digest = derive_digest(b"deadbeef".to_vec());
    assert_eq!(digest, vec![0xde, 0xad, 0xbe, 0xef]);
}

#[test]
fn non_hex_input_is_signed_over_raw_bytes() {
    let digest = derive_digest(b"hello".to_vec());
    assert_eq!(digest, vec![0x68, 0x65, 0x6c, 0x6c, 0x6f]);
}

#[test]
fn upper_and_mixed_case_hex_decodes() {
    assert_eq!(derive_digest(b"DEADBEEF".to_vec()), vec![0xde, 0xad, 0xbe, 0xef]);
    assert_eq!(derive_digest(b"DeAdBeEf".to_vec()), vec![0xde, 0xad, 0xbe, 0xef]);
}

#[test]
fn odd_length_input_falls_back_to_raw_bytes() {
    assert_eq!(derive_digest(b"abc".to_vec()), b"abc".to_vec());
}

#[test]
fn empty_input_is_an_empty_hex_encoding() {
    assert_eq!(derive_digest(Vec::new()), Vec::<u8>::new());
}

#[test]
fn near_hex_input_falls_back_to_raw_bytes() {
    assert_eq!(derive_digest(b"deadbeeg".to_vec()), b"deadbeeg".to_vec());
}

#[test]
fn clone_bytes_copies_exactly() {
    let v = vec![1u8, 2, 3, 255];
    assert_eq!(clone_bytes(&v), v);
}

#[test]
fn room_names_carry_phase_suffix() {
    assert_eq!(offline_room("42"), "42-offline");
    assert_eq!(online_room("42"), "42-online");
}

#[test]
fn rooms_of_many_generated_sessions_never_collide() {
    // A deterministic linear congruential generator stands in for the random
    // session-id source; the counter suffix keeps the ids themselves distinct.
    let mut seed: u64 = 0x1234_5678_9abc_def0;
    let mut rooms = std::collections::HashSet::new();
    for i in 0..10_000u64 {
        seed = seed.wrapping_mul(6364136223846793005).wrapping_add(1442695040888963407);
        let session = format!("{:x}-{}", seed, i);
        assert!(rooms.insert(offline_room(&session)));
        assert!(rooms.insert(online_room(&session)));
    }
    assert_eq!(rooms.len(), 20_000);
}

fn share(identity: &str, material: &[u8]) -> LocalKeyShare {
    LocalKeyShare {
        identity: identity.to_string(),
        threshold: 1,
        parties: 2,
        index: 1,
        public_key: "pk".to_string(),
        material: material.to_vec(),
    }
}

#[test]
fn second_keygen_for_identity_is_rejected_with_conflict() {
    let mut store = KeyShareStore::new();
    assert!(store.put(share("alice", b"first")).is_ok());
    let verdict = store.put(share("alice", b"second"));
    assert!(matches!(verdict, Err(StoreError::Conflict)));
    // No silent overwrite: the stored share is still the first one.
    let kept = store.get(&"alice".to_string()).unwrap();
    assert_eq!(kept.material, b"first".to_vec());
}

#[test]
fn store_get_distinguishes_missing_and_present() {
    let mut store = KeyShareStore::new();
    assert!(matches!(store.get(&"bob".to_string()), Err(StoreError::NotFound)));
    assert!(store.put(share("bob", b"m")).is_ok());
    assert!(store.put(share("carol", b"n")).is_ok());
    assert_eq!(store.get(&"bob".to_string()).unwrap().material, b"m".to_vec());
    assert_eq!(store.get(&"carol".to_string()).unwrap().material, b"n".to_vec());
    assert!(matches!(store.get(&"dave".to_string()), Err(StoreError::NotFound)));
}

#[test]
fn keygen_job_accepts_only_valid_parameters() {
    assert!(KeygenJob::new("id".to_string(), 1, 2, 1).is_ok());
    assert!(KeygenJob::new("id".to_string(), 1, 2, 2).is_ok());
    assert!(KeygenJob::new("id".to_string(), 2, 3, 3).is_ok());
    assert!(matches!(
        KeygenJob::new("id".to_string(), 0, 2, 1),
        Err(QueueError::MalformedEnvelope)
    ));
    assert!(matches!(
        KeygenJob::new("id".to_string(), 2, 2, 1),
        Err(QueueError::MalformedEnvelope)
    ));
    assert!(matches!(
        KeygenJob::new("id".to_string(), 1, 2, 0),
        Err(QueueError::MalformedEnvelope)
    ));
    assert!(matches!(
        KeygenJob::new("id".to_string(), 1, 2, 3),
        Err(QueueError::MalformedEnvelope)
    ));
}

#[test]
fn error_causes_are_short_strings() {
    assert_eq!(RelayError::Unreachable.describe(), "relay unreachable");
    assert_eq!(RelayError::RoomFull.describe(), "room is full");
    assert_eq!(RelayError::Timeout.describe(), "relay timed out");
    assert_eq!(ProtocolError::MalformedMessage.describe(), "malformed peer message");
    assert_eq!(ProtocolError::InconsistentRound.describe(), "inconsistent round");
    assert_eq!(ProtocolError::PartiesUnreachable.describe(), "parties unreachable");
    assert_eq!(AggregationError::WrongCount.describe(), "wrong partial signature count");
    assert_eq!(
        AggregationError::InvalidCombination.describe(),
        "invalid partial signature combination"
    );
    assert_eq!(StoreError::NotFound.describe(), "no share stored for identity");
    assert_eq!(StoreError::Ambiguous.describe(), "multiple shares stored for identity");
    assert_eq!(StoreError::Conflict.describe(), "identity already has a stored share");
    assert_eq!(QueueError::MalformedEnvelope.describe(), "malformed delivery envelope");
    assert_eq!(
        SignError::Relay(RelayError::Timeout).describe(),
        "relay timed out"
    );
    assert_eq!(
        KeygenError::Protocol(ProtocolError::InconsistentRound).describe(),
        "inconsistent round"
    );
}
