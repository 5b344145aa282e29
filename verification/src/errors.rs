use vstd::prelude::*;

verus! {

/// Failure while joining a relay room or while sending/receiving through it.
#[derive(Clone, Copy, PartialEq, Eq, Structural, Debug)]
pub enum RelayError {
    Unreachable,
    RoomFull,
    Timeout,
}

/// Unrecoverable fault reported while driving a round-based protocol.
#[derive(Clone, Copy, PartialEq, Eq, Structural, Debug)]
pub enum ProtocolError {
    MalformedMessage,
    InconsistentRound,
    PartiesUnreachable,
}

/// Failure while combining partial signatures into a final signature.
#[derive(Clone, Copy, PartialEq, Eq, Structural, Debug)]
pub enum AggregationError {
    WrongCount,
    InvalidCombination,
}

/// Failure reported by the key-share store.
#[derive(Clone, Copy, PartialEq, Eq, Structural, Debug)]
pub enum StoreError {
    NotFound,
    Ambiguous,
    Conflict,
}

/// Failure while decoding a queue delivery envelope.
#[derive(Clone, Copy, PartialEq, Eq, Structural, Debug)]
pub enum QueueError {
    MalformedEnvelope,
}

/// Any failure that aborts a signing run.
#[derive(Clone, Copy, PartialEq, Eq, Structural, Debug)]
pub enum SignError {
    /// The stored share material is not a decodable key share.
    MalformedShare,
    Relay(RelayError),
    Protocol(ProtocolError),
    Aggregation(AggregationError),
}

/// Any failure that aborts a key-generation run.
#[derive(Clone, Copy, PartialEq, Eq, Structural, Debug)]
pub enum KeygenError {
    Relay(RelayError),
    Protocol(ProtocolError),
}

impl RelayError {
    pub open spec fn describe_spec(self) -> Seq<char> {
        match self {
            RelayError::Unreachable => "relay unreachable"@,
            RelayError::RoomFull => "room is full"@,
            RelayError::Timeout => "relay timed out"@,
        }
    }

    /// Short cause string; never surfaces payload material.
    pub fn describe(&self) -> (r: String)
        ensures
            r@ == self.describe_spec(),
    {
        match self {
            RelayError::Unreachable => "relay unreachable".to_owned(),
            RelayError::RoomFull => "room is full".to_owned(),
            RelayError::Timeout => "relay timed out".to_owned(),
        }
    }
}

impl ProtocolError {
    pub open spec fn describe_spec(self) -> Seq<char> {
        match self {
            ProtocolError::MalformedMessage => "malformed peer message"@,
            ProtocolError::InconsistentRound => "inconsistent round"@,
            ProtocolError::PartiesUnreachable => "parties unreachable"@,
        }
    }

    /// Short cause string; never surfaces payload material.
    pub fn describe(&self) -> (r: String)
        ensures
            r@ == self.describe_spec(),
    {
        match self {
            ProtocolError::MalformedMessage => "malformed peer message".to_owned(),
            ProtocolError::InconsistentRound => "inconsistent round".to_owned(),
            ProtocolError::PartiesUnreachable => "parties unreachable".to_owned(),
        }
    }
}

impl AggregationError {
    pub open spec fn describe_spec(self) -> Seq<char> {
        match self {
            AggregationError::WrongCount => "wrong partial signature count"@,
            AggregationError::InvalidCombination => "invalid partial signature combination"@,
        }
    }

    /// Short cause string; never surfaces payload material.
    pub fn describe(&self) -> (r: String)
        ensures
            r@ == self.describe_spec(),
    {
        match self {
            AggregationError::WrongCount => "wrong partial signature count".to_owned(),
            AggregationError::InvalidCombination => {
                "invalid partial signature combination".to_owned()
            },
        }
    }
}

impl StoreError {
    pub open spec fn describe_spec(self) -> Seq<char> {
        match self {
            StoreError::NotFound => "no share stored for identity"@,
            StoreError::Ambiguous => "multiple shares stored for identity"@,
            StoreError::Conflict => "identity already has a stored share"@,
        }
    }

    /// Short cause string; never surfaces payload material.
    pub fn describe(&self) -> (r: String)
        ensures
            r@ == self.describe_spec(),
    {
        match self {
            StoreError::NotFound => "no share stored for identity".to_owned(),
            StoreError::Ambiguous => "multiple shares stored for identity".to_owned(),
            StoreError::Conflict => "identity already has a stored share".to_owned(),
        }
    }
}

impl QueueError {
    pub open spec fn describe_spec(self) -> Seq<char> {
        match self {
            QueueError::MalformedEnvelope => "malformed delivery envelope"@,
        }
    }

    /// Short cause string; never surfaces payload material.
    pub fn describe(&self) -> (r: String)
        ensures
            r@ == self.describe_spec(),
    {
        match self {
            QueueError::MalformedEnvelope => "malformed delivery envelope".to_owned(),
        }
    }
}

impl KeygenError {
    pub open spec fn describe_spec(self) -> Seq<char> {
        match self {
            KeygenError::Relay(e) => e.describe_spec(),
            KeygenError::Protocol(e) => e.describe_spec(),
        }
    }

    /// Short cause string; never surfaces payload material.
    pub fn describe(&self) -> (r: String)
        ensures
            r@ == self.describe_spec(),
    {
        match self {
            KeygenError::Relay(e) => e.describe(),
            KeygenError::Protocol(e) => e.describe(),
        }
    }
}

impl SignError {
    pub open spec fn describe_spec(self) -> Seq<char> {
        match self {
            SignError::MalformedShare => "parse local share"@,
            SignError::Relay(e) => e.describe_spec(),
            SignError::Protocol(e) => e.describe_spec(),
            SignError::Aggregation(e) => e.describe_spec(),
        }
    }

    /// Short cause string; never surfaces payload material.
    pub fn describe(&self) -> (r: String)
        ensures
            r@ == self.describe_spec(),
    {
        match self {
            SignError::MalformedShare => "parse local share".to_owned(),
            SignError::Relay(e) => e.describe(),
            SignError::Protocol(e) => e.describe(),
            SignError::Aggregation(e) => e.describe(),
        }
    }
}

} // verus!
