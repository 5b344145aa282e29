use vstd::prelude::*;
use crate::errors::{KeygenError, SignError, StoreError};
use crate::keyshare::LocalKeyShare;

verus! {

/// Outcome of asking the external transaction-simulation collaborator about a
/// transaction, as handed in by the transport layer.
pub enum SimulationOutcome {
    /// The collaborator could not be reached.
    CallFailed,
    /// The collaborator answered but its response text could not be read.
    TextUnavailable,
    /// The response text was not a decodable simulation verdict.
    ParseFailed,
    /// The simulation ran and rejected the transaction.
    Rejected,
    /// The simulation approved; sign this message under this job id.
    Approved { message: String, id: u64 },
}

/// What the transaction endpoint answers.
#[derive(Debug)]
pub struct SendTxResponse {
    pub success: bool,
    pub info: Option<String>,
}

/// Decide after the simulation call: only an approved simulation proceeds to
/// signing, every other outcome answers a failure with its cause.
pub fn on_simulation(o: SimulationOutcome) -> (r: Result<(String, u64), SendTxResponse>)
    ensures
        (o is CallFailed ==> (r matches Err(resp) && resp.success == false
            && (resp.info matches Some(s) && s@ == "fail to call tx sender"@))),
        (o is TextUnavailable ==> (r matches Err(resp) && resp.success == false
            && (resp.info matches Some(s) && s@ == "fail to get tx sender response text"@))),
        (o is ParseFailed ==> (r matches Err(resp) && resp.success == false
            && (resp.info matches Some(s) && s@ == "fail on parsing tx sender response"@))),
        (o is Rejected ==> (r matches Err(resp) && resp.success == false
            && (resp.info matches Some(s) && s@ == "tx simulation failed"@))),
        (o matches SimulationOutcome::Approved { message, id } ==> r == Ok::<
            (String, u64),
            SendTxResponse,
        >((message, id))),
{
    match o {
        SimulationOutcome::CallFailed => Err(
            SendTxResponse { success: false, info: Some("fail to call tx sender".to_owned()) },
        ),
        SimulationOutcome::TextUnavailable => Err(
            SendTxResponse {
                success: false,
                info: Some("fail to get tx sender response text".to_owned()),
            },
        ),
        SimulationOutcome::ParseFailed => Err(
            SendTxResponse {
                success: false,
                info: Some("fail on parsing tx sender response".to_owned()),
            },
        ),
        SimulationOutcome::Rejected => Err(
            SendTxResponse { success: false, info: Some("tx simulation failed".to_owned()) },
        ),
        SimulationOutcome::Approved { message, id } => Ok((message, id)),
    }
}

/// Decide after resolving the requester's share: a missing or ambiguous share
/// answers a failure carrying the store's cause instead of aborting the
/// service.
pub fn on_share_lookup<'a>(r: Result<&'a LocalKeyShare, StoreError>) -> (out: Result<
    &'a LocalKeyShare,
    SendTxResponse,
>)
    ensures
        (r matches Ok(share) ==> out == Ok::<&'a LocalKeyShare, SendTxResponse>(share)),
        (r matches Err(e) ==> (out matches Err(resp) && resp.success == false
            && (resp.info matches Some(s) && s@ == e.describe_spec()))),
{
    match r {
        Ok(share) => Ok(share),
        Err(e) => Err(SendTxResponse { success: false, info: Some(e.describe()) }),
    }
}

/// Decide after the signing run: a signature answers success, a failed run
/// answers its cause.
pub fn on_sign_outcome(r: Result<Vec<u8>, SignError>) -> (resp: SendTxResponse)
    ensures
        r is Ok ==> resp == (SendTxResponse { success: true, info: None }),
        (r matches Err(e) ==> (resp.success == false && (resp.info matches Some(s) && s@
            == e.describe_spec()))),
{
    match r {
        Ok(_) => SendTxResponse { success: true, info: None },
        Err(e) => SendTxResponse { success: false, info: Some(e.describe()) },
    }
}

/// What the key-creation endpoint answers.
#[derive(Debug)]
pub struct NewKeyResponse {
    pub success: bool,
    pub user_id: String,
    pub address: Option<String>,
    pub info: Option<String>,
}

/// Decide after notifying the external collaborator of the new key id: a
/// failed call answers a failure, a delivered call proceeds to keygen.
pub fn on_new_key_notify(user_id: String, delivered: bool) -> (r: Result<String, NewKeyResponse>)
    ensures
        delivered ==> r == Ok::<String, NewKeyResponse>(user_id),
        !delivered ==> (r matches Err(resp) && resp.success == false && resp.user_id == user_id
            && resp.address is None && (resp.info matches Some(s) && s@
            == "fail to call tx sender"@)),
{
    if delivered {
        Ok(user_id)
    } else {
        Err(
            NewKeyResponse {
                success: false,
                user_id,
                address: None,
                info: Some("fail to call tx sender".to_owned()),
            },
        )
    }
}

/// Decide after the key-generation run: a failed run answers its cause
/// instead of aborting the service.
pub fn on_new_key_keygen(user_id: String, r: Result<LocalKeyShare, KeygenError>) -> (out: Result<
    LocalKeyShare,
    NewKeyResponse,
>)
    ensures
        (r matches Ok(share) ==> out == Ok::<LocalKeyShare, NewKeyResponse>(share)),
        (r matches Err(e) ==> (out matches Err(resp) && resp.success == false && resp.user_id
            == user_id && resp.address is None && (resp.info matches Some(s) && s@
            == e.describe_spec()))),
{
    match r {
        Ok(share) => Ok(share),
        Err(e) => Err(
            NewKeyResponse {
                success: false,
                user_id,
                address: None,
                info: Some(e.describe()),
            },
        ),
    }
}

/// The success answer of the key-creation endpoint: the new key's id and its
/// derived public key.
pub fn new_key_success(user_id: String, public_key: String) -> (resp: NewKeyResponse)
    ensures
        resp == (NewKeyResponse {
            success: true,
            user_id,
            address: Some(public_key),
            info: None,
        }),
{
    NewKeyResponse { success: true, user_id, address: Some(public_key), info: None }
}

} // verus!
