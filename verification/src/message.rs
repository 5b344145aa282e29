use vstd::prelude::*;

verus! {

/// Mathematical model of a relay message.
pub struct MsgView {
    pub sender: u16,
    pub receiver: Option<u16>,
    pub body: Seq<u8>,
}

/// A message exchanged through a relay room: sender index, optional receiver
/// index (absent means broadcast), and an opaque round payload.
pub struct Message {
    pub sender: u16,
    pub receiver: Option<u16>,
    pub body: Vec<u8>,
}

impl View for Message {
    type V = MsgView;

    open spec fn view(&self) -> MsgView {
        MsgView { sender: self.sender, receiver: self.receiver, body: self.body@ }
    }
}

/// The relay delivers a message to `party` exactly when the party is not the
/// sender and the message is either a broadcast or addressed to the party.
pub open spec fn delivered_to(m: MsgView, party: u16) -> bool {
    m.sender != party && (m.receiver is None || m.receiver == Some(party))
}

impl Message {
    pub fn is_broadcast(&self) -> (r: bool)
        ensures
            r == (self@.receiver is None),
    {
        self.receiver.is_none()
    }

    pub fn is_delivered_to(&self, party: u16) -> (r: bool)
        ensures
            r == delivered_to(self@, party),
    {
        self.sender != party && (match self.receiver {
            Option::None => true,
            Option::Some(p) => p == party,
        })
    }
}

} // verus!
