use vstd::prelude::*;
use crate::errors::{QueueError, StoreError};

verus! {

/// A party's private share of a jointly generated key: the owning identity,
/// threshold `t`, party count `n`, the party's own index, the derived joint
/// public key in serialized form, and the opaque serialized cryptographic
/// material. Created once per identity by keygen and thereafter read-only.
#[derive(Debug)]
pub struct LocalKeyShare {
    pub identity: String,
    pub threshold: u16,
    pub parties: u16,
    pub index: u16,
    pub public_key: String,
    pub material: Vec<u8>,
}

impl LocalKeyShare {
    /// Scheme parameters a share may carry: 1 <= t < n and 1 <= index <= n.
    pub open spec fn wf(&self) -> bool {
        &&& 1 <= self.threshold < self.parties
        &&& 1 <= self.index <= self.parties
    }
}

/// A request to run key generation: identity (also the room to join),
/// threshold, party count, and this party's index.
pub struct KeygenJob {
    pub identity: String,
    pub threshold: u16,
    pub parties: u16,
    pub index: u16,
}

impl KeygenJob {
    pub open spec fn wf(&self) -> bool {
        &&& 1 <= self.threshold < self.parties
        &&& 1 <= self.index <= self.parties
    }

    /// Accepts the parameters exactly when 1 <= t < n and 1 <= index <= n;
    /// anything else is a malformed request.
    pub fn new(identity: String, threshold: u16, parties: u16, index: u16) -> (r: Result<
        KeygenJob,
        QueueError,
    >)
        ensures
            r is Ok <==> (1 <= threshold < parties && 1 <= index <= parties),
            r matches Ok(job) ==> job == (KeygenJob { identity, threshold, parties, index })
                && job.wf(),
            r is Err ==> r matches Err(QueueError::MalformedEnvelope),
    {
        if 1 <= threshold && threshold < parties && 1 <= index && index <= parties {
            Ok(KeygenJob { identity, threshold, parties, index })
        } else {
            Err(QueueError::MalformedEnvelope)
        }
    }
}

/// A request to sign: the external input to digest, the session identifier
/// whose phase-suffixed rooms the run joins, and the requesting identity.
pub struct SigningJob {
    pub message: Vec<u8>,
    pub session: String,
    pub identity: String,
}

/// How many stored shares carry the given identity.
pub open spec fn count_matches(s: Seq<LocalKeyShare>, id: Seq<char>) -> nat
    decreases s.len(),
{
    if s.len() == 0 {
        0
    } else {
        (count_matches(s.drop_last(), id) + (if s.last().identity@ == id {
            1int
        } else {
            0int
        })) as nat
    }
}

proof fn lemma_count_take_step(s: Seq<LocalKeyShare>, id: Seq<char>, k: int)
    requires
        0 <= k < s.len(),
    ensures
        count_matches(s.take(k + 1), id) == count_matches(s.take(k), id) + (
        if s[k].identity@ == id {
            1int
        } else {
            0int
        }),
{
    assert(s.take(k + 1).drop_last() =~= s.take(k));
    assert(s.take(k + 1).last() == s[k]);
}

/// Persists one share per identity; the uniqueness of identities is the
/// store's own invariant, never re-checked by callers.
pub struct KeyShareStore {
    records: Vec<LocalKeyShare>,
}

impl View for KeyShareStore {
    type V = Seq<LocalKeyShare>;

    closed spec fn view(&self) -> Seq<LocalKeyShare> {
        self.records@
    }
}

impl KeyShareStore {
    /// No identity is stored twice.
    pub open spec fn wf(&self) -> bool {
        forall|id: Seq<char>| count_matches(self@, id) <= 1
    }

    pub open spec fn contains_identity(&self, id: Seq<char>) -> bool {
        count_matches(self@, id) >= 1
    }

    pub fn new() -> (r: KeyShareStore)
        ensures
            r@ == Seq::<LocalKeyShare>::empty(),
            r.wf(),
    {
        let store = KeyShareStore { records: Vec::new() };
        proof {
            assert forall|id: Seq<char>| count_matches(store@, id) <= 1 by {
                assert(count_matches(store@, id) == 0);
            }
        }
        store
    }

    /// Retrieve the share stored for an identity: the unique match, or
    /// NotFound when none is stored, or Ambiguous when several are.
    pub fn get(&self, identity: &String) -> (r: Result<&LocalKeyShare, StoreError>)
        ensures
            r is Ok <==> count_matches(self@, identity@) == 1,
            (r matches Err(e) && e == StoreError::NotFound) <==> !self.contains_identity(
                identity@),
            (r matches Err(e) && e == StoreError::Ambiguous) <==> count_matches(self@, identity@)
                >= 2,
            r matches Ok(s) ==> s.identity@ == identity@ && self@.contains(*s),
    {
        let mut found: Option<usize> = None;
        let mut count: usize = 0;
        let mut k: usize = 0;
        proof {
            assert(self@.take(0) =~= Seq::<LocalKeyShare>::empty());
        }
        while k < self.records.len()
            invariant
                k <= self.records.len(),
                count <= k,
                count == count_matches(self@.take(k as int), identity@),
                found is Some <==> count >= 1,
                found matches Some(j) ==> j < k && self@[j as int].identity@ == identity@,
            decreases self.records.len() - k,
        {
            proof {
                lemma_count_take_step(self@, identity@, k as int);
            }
            if self.records[k].identity == *identity {
                count = count + 1;
                if found.is_none() {
                    found = Some(k);
                }
            }
            k = k + 1;
        }
        proof {
            assert(self@.take(self.records.len() as int) =~= self@);
        }
        if count == 0 {
            Err(StoreError::NotFound)
        } else if count == 1 {
            match found {
                Some(j) => {
                    let share = &self.records[j];
                    proof {
                        assert(self@.contains(self@[j as int]));
                    }
                    Ok(share)
                },
                None => Err(StoreError::NotFound),
            }
        } else {
            Err(StoreError::Ambiguous)
        }
    }

    /// Persist a share for an identity that has none yet; an identity that
    /// already has a stored share is rejected with Conflict and the store is
    /// left unchanged — never silently overwritten.
    pub fn put(&mut self, share: LocalKeyShare) -> (r: Result<(), StoreError>)
        requires
            old(self).wf(),
        ensures
            final(self).wf(),
            old(self).contains_identity(share.identity@) ==> (r matches Err(
                StoreError::Conflict,
            ) && final(self)@ == old(self)@),
            !old(self).contains_identity(share.identity@) ==> r is Ok && final(self)@ == old(
                self,
            )@.push(share),
    {
        let mut count: usize = 0;
        let mut k: usize = 0;
        proof {
            assert(self@.take(0) =~= Seq::<LocalKeyShare>::empty());
        }
        while k < self.records.len()
            invariant
                k <= self.records.len(),
                count <= k,
                count == count_matches(self@.take(k as int), share.identity@),
            decreases self.records.len() - k,
        {
            proof {
                lemma_count_take_step(self@, share.identity@, k as int);
            }
            if self.records[k].identity == share.identity {
                count = count + 1;
            }
            k = k + 1;
        }
        proof {
            assert(self@.take(self.records.len() as int) =~= self@);
        }
        if count > 0 {
            Err(StoreError::Conflict)
        } else {
            let ghost before = self@;
            self.records.push(share);
            proof {
                assert forall|other: Seq<char>| count_matches(self@, other) <= 1 by {
                    assert(self@.drop_last() =~= before);
                    assert(count_matches(self@, other) == count_matches(before, other) + (
                    if self@.last().identity@ == other {
                        1int
                    } else {
                        0int
                    }));
                }
            }
            Ok(())
        }
    }
}

} // verus!
