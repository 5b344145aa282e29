use vstd::prelude::*;
use vstd::string::StringExecFns;

verus! {

/// Room joined for the offline (message-independent) phase of a signing session.
pub open spec fn offline_room_id(session: Seq<char>) -> Seq<char> {
    session + "-offline"@
}

/// Room joined for the online (partial-signature exchange) phase of a signing session.
pub open spec fn online_room_id(session: Seq<char>) -> Seq<char> {
    session + "-online"@
}

pub fn offline_room(session: &str) -> (r: String)
    ensures
        r@ == offline_room_id(session@),
{
    let mut room = session.to_owned();
    room.append("-offline");
    room
}

pub fn online_room(session: &str) -> (r: String)
    ensures
        r@ == online_room_id(session@),
{
    let mut room = session.to_owned();
    room.append("-online");
    room
}

/// Phase-suffixed rooms are isolated: two sessions share a room only when the
/// session identifiers are equal and the phases agree, so one session's rooms
/// never collide with another session's rooms, nor does an offline room ever
/// collide with an online room.
pub proof fn lemma_room_isolation(a: Seq<char>, b: Seq<char>)
    ensures
        offline_room_id(a) == offline_room_id(b) ==> a == b,
        online_room_id(a) == online_room_id(b) ==> a == b,
        offline_room_id(a) != online_room_id(b),
{
    reveal_strlit("-offline");
    reveal_strlit("-online");
    assert("-offline"@.len() == 8);
    assert("-online"@.len() == 7);
    assert(offline_room_id(a).len() == a.len() + 8);
    assert(offline_room_id(b).len() == b.len() + 8);
    assert(online_room_id(a).len() == a.len() + 7);
    assert(online_room_id(b).len() == b.len() + 7);
    if offline_room_id(a) == offline_room_id(b) {
        assert(a.len() == b.len());
        assert forall|i: int| 0 <= i < a.len() implies a[i] == b[i] by {
            assert(offline_room_id(a)[i] == a[i]);
            assert(offline_room_id(b)[i] == b[i]);
        }
        assert(a =~= b);
    }
    if online_room_id(a) == online_room_id(b) {
        assert(a.len() == b.len());
        assert forall|i: int| 0 <= i < a.len() implies a[i] == b[i] by {
            assert(online_room_id(a)[i] == a[i]);
            assert(online_room_id(b)[i] == b[i]);
        }
        assert(a =~= b);
    }
    if offline_room_id(a) == online_room_id(b) {
        let p = b.len() as int;
        assert(online_room_id(b)[p] == '-');
        assert(a.len() + 8 == b.len() + 7);
        assert(offline_room_id(a)[p] == "-offline"@[1]);
        assert(false);
    }
}

} // verus!
