use vstd::prelude::*;
use crate::errors::{AggregationError, KeygenError, ProtocolError, SignError};
use crate::keyshare::KeygenJob;
use crate::signflow::PartialSig;
use curv::arithmetic::Converter;
use curv::elliptic::curves::secp256_k1::Secp256k1;
use multi_party_ecdsa::protocols::multi_party_ecdsa::gg_2020::party_i::SignatureRecid;
use multi_party_ecdsa::protocols::multi_party_ecdsa::gg_2020::state_machine::keygen::{
    Keygen,
    LocalKey,
};
use round_based::StateMachine;
use multi_party_ecdsa::protocols::multi_party_ecdsa::gg_2020::state_machine::sign::{
    CompletedOfflineStage,
    OfflineStage,
    PartialSignature,
    SignManual,
};

verus! {

#[verifier::external_type_specification]
#[verifier::external_body]
pub struct ExSecp256k1(Secp256k1);

/// The cryptographic key share exactly as the external library represents
/// it; opaque to verification and carried through whole.
#[verifier::external_body]
pub struct KeyHandle {
    inner: LocalKey<Secp256k1>,
}

#[verifier::external_type_specification]
#[verifier::external_body]
pub struct ExKeygen(Keygen);

#[verifier::external_type_specification]
#[verifier::external_body]
pub struct ExOfflineStage(OfflineStage);

#[verifier::external_type_specification]
#[verifier::external_body]
pub struct ExCompletedOfflineStage(CompletedOfflineStage);

#[verifier::external_type_specification]
#[verifier::external_body]
pub struct ExSignManual(SignManual);

#[verifier::external_type_specification]
#[verifier::external_body]
pub struct ExPartialSignature(PartialSignature);

#[verifier::external_type_specification]
#[verifier::external_body]
pub struct ExSignatureRecid(SignatureRecid);

/// Whether a byte sequence is the wire encoding of a key share; decoding
/// succeeds exactly on such bytes, a function of the bytes alone.
pub uninterp spec fn is_share_encoding(b: Seq<u8>) -> bool;

/// Whether a byte sequence is the wire encoding of a partial signature;
/// decoding succeeds exactly on such bytes, a function of the bytes alone.
pub uninterp spec fn is_partial_sig_encoding(b: Seq<u8>) -> bool;

/// A usable set of participating party indices for the offline stage: at
/// least two parties, the own index within the set, every index positive, no
/// index listed twice.
pub open spec fn valid_party_subset(i: u16, s: Seq<u16>) -> bool {
    &&& 2 <= s.len()
    &&& 1 <= i <= s.len()
    &&& (forall|k: int| 0 <= k < s.len() ==> 1 <= #[trigger] s[k])
    &&& (forall|k: int, l: int| 0 <= k < l < s.len() ==> s[k] != s[l])
}

/// Relies on Keygen::new: it succeeds exactly when 1 <= t < n and
/// 1 <= i <= n (its first round never fails), and rejects anything else.
#[verifier::external_body]
fn mk_keygen(i: u16, t: u16, n: u16) -> (r: Option<Keygen>)
    ensures
        r is Some <==> (1 <= t < n && 1 <= i <= n),
{
    Keygen::new(i, t, n).ok()
}

/// Relies on OfflineStage::new: it rejects a party set of fewer than two
/// parties, an own index outside the set, a zero index, or a duplicated
/// index; it may also reject a set that contradicts the key share itself.
#[verifier::external_body]
fn mk_offline(i: u16, parties: Vec<u16>, key: KeyHandle) -> (r: Option<OfflineStage>)
    ensures
        r is Some ==> valid_party_subset(i, parties@),
{
    OfflineStage::new(i, parties, key.inner).ok()
}

/// Relies on SignManual::new over BigInt::from_bytes: the digest bytes are
/// read as a big-endian unsigned integer and combined with the completed
/// offline artifact into this party's partial signature; it accepts any
/// digest bytes and any completed artifact, and never fails.
#[verifier::external_body]
fn sign_partial(digest: &Vec<u8>, stage: CompletedOfflineStage) -> (r: Option<
    (SignManual, PartialSignature),
>)
    ensures
        r is Some,
{
    SignManual::new(curv::BigInt::from_bytes(digest.as_slice()), stage).ok()
}

/// Relies on serde_json::to_vec for PartialSignature: the wire form of a
/// partial signature; it never fails for this type (one scalar, no map
/// fields).
#[verifier::external_body]
fn encode_partial(p: &PartialSignature) -> (r: Option<Vec<u8>>)
    ensures
        r is Some,
{
    serde_json::to_vec(p).ok()
}

/// Relies on serde_json::from_slice for PartialSignature: it succeeds exactly
/// on the wire encodings of partial signatures, and decodes what
/// encode_partial produces.
#[verifier::external_body]
fn decode_partial(b: &Vec<u8>) -> (r: Option<PartialSignature>)
    ensures
        r is Some <==> is_partial_sig_encoding(b@),
{
    serde_json::from_slice(b.as_slice()).ok()
}

/// Relies on serde_json::to_string for SignatureRecid: the serialized final
/// signature handed back to callers; it never fails for this type (two
/// scalars and a byte, no map fields).
#[verifier::external_body]
fn encode_signature(s: &SignatureRecid) -> (r: Option<String>)
    ensures
        r is Some,
{
    serde_json::to_string(s).ok()
}

/// Relies on serde_json::from_slice for LocalKey: it succeeds exactly on the
/// wire encodings of key shares, a function of the bytes alone.
#[verifier::external_body]
fn decode_local_key(b: &Vec<u8>) -> (r: Option<KeyHandle>)
    ensures
        r is Some <==> is_share_encoding(b@),
{
    Some(KeyHandle { inner: serde_json::from_slice(b.as_slice()).ok()? })
}

/// Relies on serde_json::to_vec for LocalKey: the stored form of the
/// cryptographic key share; it never fails for this type (points, scalars
/// and integers, no map fields).
#[verifier::external_body]
fn encode_local_key(k: &KeyHandle) -> (r: Option<Vec<u8>>)
    ensures
        r is Some,
{
    serde_json::to_vec(&k.inner).ok()
}

/// Relies on serde_json::to_string over the key share's public-key point: the
/// derived joint public key in serialized form; it never fails for a curve
/// point.
#[verifier::external_body]
fn encode_public_key(k: &KeyHandle) -> (r: Option<String>)
    ensures
        r is Some,
{
    serde_json::to_string(&k.inner.y_sum_s).ok()
}

/// Construct a fresh keygen state machine for a well-formed job; with
/// 1 <= t < n and 1 <= index <= n construction always succeeds.
pub fn new_keygen_machine(job: &KeygenJob) -> (r: Result<Keygen, KeygenError>)
    requires
        job.wf(),
    ensures
        r is Ok,
{
    match mk_keygen(job.index, job.threshold, job.parties) {
        Some(m) => Ok(m),
        None => Err(KeygenError::Protocol(ProtocolError::InconsistentRound)),
    }
}

/// Parse stored share material back into a cryptographic key share: exactly
/// the decodable material parses, and anything else is a reported parse
/// failure, never a panic.
pub fn parse_stored_share(material: &Vec<u8>) -> (r: Result<KeyHandle, SignError>)
    ensures
        r is Ok <==> is_share_encoding(material@),
        r matches Err(e) ==> e == SignError::MalformedShare,
{
    match decode_local_key(material) {
        Some(k) => Ok(k),
        None => Err(SignError::MalformedShare),
    }
}

/// Seed the offline stage with the caller's key share and the participating
/// party set; a set the stage accepts is necessarily a valid party subset.
pub fn new_offline_machine(i: u16, parties: Vec<u16>, key: KeyHandle) -> (r: Result<
    OfflineStage,
    SignError,
>)
    ensures
        r is Ok ==> valid_party_subset(i, parties@),
        r matches Err(e) ==> e == SignError::Protocol(ProtocolError::MalformedMessage),
{
    match mk_offline(i, parties, key) {
        Some(m) => Ok(m),
        None => Err(SignError::Protocol(ProtocolError::MalformedMessage)),
    }
}

/// Compute this party's partial signature over the digest from the completed
/// offline artifact, in wire form, together with the state needed to combine
/// the peers' contributions later. This never fails: the local signing step
/// accepts any digest, and a partial signature always serializes.
pub fn local_partial_signature(digest: &Vec<u8>, stage: CompletedOfflineStage) -> (r: Result<
    (SignManual, PartialSig),
    SignError,
>)
    ensures
        r is Ok,
{
    match sign_partial(digest, stage) {
        Some((m, p)) => {
            match encode_partial(&p) {
                Some(payload) => Ok((m, PartialSig { payload })),
                None => Err(SignError::Aggregation(AggregationError::InvalidCombination)),
            }
        },
        None => Err(SignError::Aggregation(AggregationError::InvalidCombination)),
    }
}

/// Decode the collected peer contributions from their wire form: succeeds
/// exactly when every contribution is a valid wire encoding, and a
/// contribution that is not decodes to a malformed-message failure.
pub fn decode_partial_signatures(parts: &Vec<PartialSig>) -> (r: Result<
    Vec<PartialSignature>,
    SignError,
>)
    ensures
        (r is Ok <==> (forall|k: int|
            0 <= k < parts@.len() ==> is_partial_sig_encoding(#[trigger] parts@[k]@))),
        r matches Ok(v) ==> v@.len() == parts@.len(),
        r matches Err(e) ==> e == SignError::Protocol(ProtocolError::MalformedMessage),
{
    let mut sigs: Vec<PartialSignature> = Vec::new();
    let mut k: usize = 0;
    while k < parts.len()
        invariant
            k <= parts.len(),
            sigs@.len() == k,
            forall|j: int| 0 <= j < k ==> is_partial_sig_encoding(#[trigger] parts@[j]@),
        decreases parts.len() - k,
    {
        match decode_partial(&parts[k].payload) {
            Some(p) => sigs.push(p),
            None => {
                proof {
                    assert(!is_partial_sig_encoding(parts@[k as int]@));
                }
                return Err(SignError::Protocol(ProtocolError::MalformedMessage));
            },
        }
        k = k + 1;
    }
    Ok(sigs)
}

/// Seal the outcome of combining the partial signatures: a combined
/// signature is serialized (which never fails), a rejected combination is an
/// invalid-combination failure.
pub fn completed_signature(outcome: Option<SignatureRecid>) -> (r: Result<String, SignError>)
    ensures
        r is Ok <==> outcome is Some,
        r matches Err(e) ==> e == SignError::Aggregation(AggregationError::InvalidCombination),
{
    match outcome {
        Some(sig) => {
            match encode_signature(&sig) {
                Some(s) => Ok(s),
                None => Err(SignError::Aggregation(AggregationError::InvalidCombination)),
            }
        },
        None => Err(SignError::Aggregation(AggregationError::InvalidCombination)),
    }
}

/// Relies on Keygen::pick_output: the finished machine's key share; nothing
/// before the machine has finished.
#[verifier::external_body]
fn keygen_result(m: &mut Keygen) -> (r: Option<KeyHandle>) {
    match m.pick_output() {
        Some(Ok(k)) => Some(KeyHandle { inner: k }),
        _ => None,
    }
}

/// Relies on OfflineStage::pick_output: the finished machine's completed
/// offline artifact; nothing before the machine has finished.
#[verifier::external_body]
fn offline_result(m: &mut OfflineStage) -> (r: Option<CompletedOfflineStage>) {
    match m.pick_output() {
        Some(Ok(stage)) => Some(stage),
        _ => None,
    }
}

/// Read the finished keygen machine's share and turn it into the two
/// persisted artifacts; a machine that has no output yet is a protocol fault.
pub fn finished_keygen_share(m: &mut Keygen) -> (r: Result<(Vec<u8>, String), KeygenError>)
    ensures
        r matches Err(e) ==> e == KeygenError::Protocol(ProtocolError::InconsistentRound),
{
    match keygen_result(m) {
        Some(k) => match keygen_output_material(&k) {
            Ok(artifacts) => Ok(artifacts),
            Err(_) => Err(KeygenError::Protocol(ProtocolError::InconsistentRound)),
        },
        None => Err(KeygenError::Protocol(ProtocolError::InconsistentRound)),
    }
}

/// Read the finished offline machine's single-use artifact; a machine that
/// has no output yet is a protocol fault.
pub fn finished_offline_stage(m: &mut OfflineStage) -> (r: Result<CompletedOfflineStage, SignError>)
    ensures
        r matches Err(e) ==> e == SignError::Protocol(ProtocolError::InconsistentRound),
{
    match offline_result(m) {
        Some(stage) => Ok(stage),
        None => Err(SignError::Protocol(ProtocolError::InconsistentRound)),
    }
}

/// The two persisted artifacts of a finished keygen: the serialized share
/// material and the serialized derived joint public key. Neither
/// serialization can fail for a key share.
pub fn keygen_output_material(key: &KeyHandle) -> (r: Result<(Vec<u8>, String), KeygenError>)
    ensures
        r is Ok,
{
    match encode_local_key(key) {
        Some(material) => {
            match encode_public_key(key) {
                Some(pk) => Ok((material, pk)),
                None => Err(KeygenError::Protocol(ProtocolError::MalformedMessage)),
            }
        },
        None => Err(KeygenError::Protocol(ProtocolError::MalformedMessage)),
    }
}

} // verus!
