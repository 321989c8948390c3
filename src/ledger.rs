//! The envelope ledger: envelope records numbered from 0 in order of creation.

use vstd::prelude::*;
use crate::digest::sha256_of;
use crate::envelope::{creation_result, Envelope, EnvelopeError};

verus! {

/// Keys under which a host persists the ledger: one record per envelope
/// identifier, and the identifier counter.
#[derive(Clone, Copy, Debug, PartialEq, Eq, Structural)]
pub enum DataKey {
    Envelope(u64),
    NextId,
}

/// The ledger state after a creation request, and what the request returns.
pub open spec fn create_step(
    s: Seq<Envelope>,
    authorized: bool,
    now: u64,
    owner: soroban_sdk::Address,
    beneficiary: soroban_sdk::Address,
    amount: i128,
    secret_hash: [u8; 32],
    unlock_time: u64,
    expiry_time: u64,
) -> (Seq<Envelope>, Result<u64, EnvelopeError>) {
    match creation_result(authorized, now, amount, unlock_time, expiry_time) {
        Ok(()) => (
            s.push(
                Envelope {
                    owner,
                    beneficiary,
                    amount,
                    secret_hash,
                    unlock_time,
                    expiry_time,
                    claimed: false,
                },
            ),
            Ok(s.len() as u64),
        ),
        Err(e) => (s, Err(e)),
    }
}

/// The ledger state after a claim of envelope `id` revealing a secret with
/// digest `digest`, and what the claim returns.
pub open spec fn claim_step(
    s: Seq<Envelope>,
    id: u64,
    authorized: bool,
    now: u64,
    digest: Seq<u8>,
) -> (Seq<Envelope>, Result<(), EnvelopeError>) {
    if id >= s.len() {
        (s, Err(EnvelopeError::NotFound))
    } else {
        match s[id as int].claim_result(authorized, now, digest) {
            Ok(()) => (s.update(id as int, s[id as int].released()), Ok(())),
            Err(e) => (s, Err(e)),
        }
    }
}

/// The ledger state after a reclaim of envelope `id`, and what it returns.
pub open spec fn reclaim_step(s: Seq<Envelope>, id: u64, authorized: bool, now: u64) -> (Seq<
    Envelope,
>, Result<(), EnvelopeError>) {
    if id >= s.len() {
        (s, Err(EnvelopeError::NotFound))
    } else {
        match s[id as int].reclaim_result(authorized, now) {
            Ok(()) => (s.update(id as int, s[id as int].released()), Ok(())),
            Err(e) => (s, Err(e)),
        }
    }
}

/// The ledger of envelopes. The identifier of an envelope is its position, so
/// the next identifier to allocate is the number of envelopes created.
pub struct HashLockedEnvelopesContract {
    envelopes: Vec<Envelope>,
}

impl View for HashLockedEnvelopesContract {
    type V = Seq<Envelope>;

    closed spec fn view(&self) -> Seq<Envelope> {
        self.envelopes@
    }
}

impl HashLockedEnvelopesContract {
    /// Every stored envelope satisfies the creation checks, and every
    /// identifier fits in a `u64`.
    pub open spec fn wf(&self) -> bool {
        &&& self@.len() <= u64::MAX
        &&& forall|i: int| 0 <= i < self@.len() ==> (#[trigger] self@[i]).valid()
    }

    /// An empty ledger.
    pub fn new() -> (r: Self)
        ensures
            r.wf(),
            r@ == Seq::<Envelope>::empty(),
    {
        HashLockedEnvelopesContract { envelopes: Vec::new() }
    }

    /// Creates an envelope and returns its identifier; `authorized` tells
    /// whether the host proved that `owner` authorized the call.
    pub fn create_envelope(
        &mut self,
        authorized: bool,
        now: u64,
        owner: soroban_sdk::Address,
        beneficiary: soroban_sdk::Address,
        amount: i128,
        secret_hash: [u8; 32],
        unlock_time: u64,
        expiry_time: u64,
    ) -> (r: Result<u64, EnvelopeError>)
        requires
            old(self).wf(),
            old(self)@.len() < u64::MAX,
        ensures
            final(self).wf(),
            (final(self)@, r) == create_step(
                old(self)@,
                authorized,
                now,
                owner,
                beneficiary,
                amount,
                secret_hash,
                unlock_time,
                expiry_time,
            ),
            r is Ok <==> (authorized && now < unlock_time && unlock_time < expiry_time && amount
                > 0),
            match r {
                Ok(id) => id == old(self)@.len() && !final(self)@[id as int].claimed,
                Err(_) => final(self)@ == old(self)@,
            },
    {
        let envelope = Envelope::new(
            authorized,
            now,
            owner,
            beneficiary,
            amount,
            secret_hash,
            unlock_time,
            expiry_time,
        );
        match envelope {
            Ok(envelope) => {
                let id = self.envelopes.len() as u64;
                self.envelopes.push(envelope);
                Ok(id)
            },
            Err(e) => Err(e),
        }
    }

    /// Claims envelope `id` for its beneficiary, given the digest of the
    /// revealed secret; `authorized` tells whether the host proved that the
    /// envelope's beneficiary authorized the call.
    pub fn claim_with_digest(&mut self, id: u64, authorized: bool, now: u64, digest: &[u8; 32]) -> (r:
        Result<(), EnvelopeError>)
        requires
            old(self).wf(),
        ensures
            final(self).wf(),
            (final(self)@, r) == claim_step(old(self)@, id, authorized, now, digest@),
            r is Ok <==> (id < old(self)@.len() && authorized && !old(self)@[id as int].claimed
                && old(self)@[id as int].unlock_time <= now && now < old(self)@[id as int].expiry_time
                && digest@ == old(self)@[id as int].secret_hash@),
    {
        if id >= self.envelopes.len() as u64 {
            return Err(EnvelopeError::NotFound);
        }
        let r = self.envelopes[id as usize].claim_with_digest(authorized, now, digest);
        proof {
            assert forall|i: int| 0 <= i < self@.len() implies (#[trigger] self@[i]).valid() by {
                assert(old(self)@[i].valid());
            }
        }
        r
    }

    /// Claims envelope `id` for its beneficiary with the revealed `secret`,
    /// whose SHA-256 digest the host computes; `authorized` tells whether the
    /// host proved that the envelope's beneficiary authorized the call.
    pub fn claim(
        &mut self,
        env: &soroban_sdk::Env,
        id: u64,
        authorized: bool,
        now: u64,
        secret: &Vec<u8>,
    ) -> (r: Result<(), EnvelopeError>)
        requires
            old(self).wf(),
        ensures
            final(self).wf(),
            (final(self)@, r) == claim_step(old(self)@, id, authorized, now, sha256_of(secret@)),
            r is Ok <==> (id < old(self)@.len() && authorized && !old(self)@[id as int].claimed
                && old(self)@[id as int].unlock_time <= now && now < old(self)@[id as int].expiry_time
                && sha256_of(secret@) == old(self)@[id as int].secret_hash@),
    {
        if id >= self.envelopes.len() as u64 {
            return Err(EnvelopeError::NotFound);
        }
        let r = self.envelopes[id as usize].claim(env, authorized, now, secret);
        proof {
            assert forall|i: int| 0 <= i < self@.len() implies (#[trigger] self@[i]).valid() by {
                assert(old(self)@[i].valid());
            }
        }
        r
    }

    /// Returns envelope `id` to its owner once it has expired unclaimed;
    /// `authorized` tells whether the host proved that the envelope's owner
    /// authorized the call.
    pub fn reclaim(&mut self, id: u64, authorized: bool, now: u64) -> (r: Result<(), EnvelopeError>)
        requires
            old(self).wf(),
        ensures
            final(self).wf(),
            (final(self)@, r) == reclaim_step(old(self)@, id, authorized, now),
            r is Ok <==> (id < old(self)@.len() && authorized && !old(self)@[id as int].claimed
                && now >= old(self)@[id as int].expiry_time),
    {
        if id >= self.envelopes.len() as u64 {
            return Err(EnvelopeError::NotFound);
        }
        let r = self.envelopes[id as usize].reclaim(authorized, now);
        proof {
            assert forall|i: int| 0 <= i < self@.len() implies (#[trigger] self@[i]).valid() by {
                assert(old(self)@[i].valid());
            }
        }
        r
    }

    /// The envelope with identifier `id`, if one was created.
    pub fn get_envelope(&self, id: u64) -> (r: Option<&Envelope>)
        ensures
            match r {
                Some(e) => id < self@.len() && *e == self@[id as int],
                None => id >= self@.len(),
            },
    {
        if id < self.envelopes.len() as u64 {
            Some(&self.envelopes[id as usize])
        } else {
            None
        }
    }

    /// The identifier that the next creation will allocate, which is the number
    /// of envelopes created so far.
    pub fn get_next_id(&self) -> (r: u64)
        requires
            self.wf(),
        ensures
            r == self@.len(),
    {
        self.envelopes.len() as u64
    }
}

/// A request to create an envelope, with the host's answers (authorization
/// and time) that come with it.
pub struct CreateRequest {
    pub authorized: bool,
    pub now: u64,
    pub owner: soroban_sdk::Address,
    pub beneficiary: soroban_sdk::Address,
    pub amount: i128,
    pub secret_hash: [u8; 32],
    pub unlock_time: u64,
    pub expiry_time: u64,
}

/// The ledger after serving `q`, and what `q` returns.
pub open spec fn create_request_step(s: Seq<Envelope>, q: CreateRequest) -> (Seq<Envelope>, Result<
    u64,
    EnvelopeError,
>) {
    create_step(
        s,
        q.authorized,
        q.now,
        q.owner,
        q.beneficiary,
        q.amount,
        q.secret_hash,
        q.unlock_time,
        q.expiry_time,
    )
}

/// The ledger after serving `reqs` in order from an empty ledger, and the
/// identifiers returned by the requests that succeeded.
pub open spec fn run_creations(reqs: Seq<CreateRequest>) -> (Seq<Envelope>, Seq<u64>)
    decreases reqs.len(),
{
    if reqs.len() == 0 {
        (Seq::empty(), Seq::empty())
    } else {
        let (s, ids) = run_creations(reqs.drop_last());
        let (next, r) = create_request_step(s, reqs.last());
        match r {
            Ok(id) => (next, ids.push(id)),
            Err(_) => (next, ids),
        }
    }
}

/// Outcome of a claim (`is_claim`) or a reclaim of envelope `id`.
pub open spec fn release_step(
    s: Seq<Envelope>,
    id: u64,
    is_claim: bool,
    authorized: bool,
    now: u64,
    digest: Seq<u8>,
) -> (Seq<Envelope>, Result<(), EnvelopeError>) {
    if is_claim {
        claim_step(s, id, authorized, now, digest)
    } else {
        reclaim_step(s, id, authorized, now)
    }
}

/// Identifiers issued from an empty ledger are 0, 1, 2, ... in the order of
/// the successful creations, so they strictly increase, and the counter (the
/// number of envelopes) equals the number of successful creations.
pub proof fn lemma_identifiers_sequential(reqs: Seq<CreateRequest>)
    requires
        reqs.len() < u64::MAX,
    ensures
        run_creations(reqs).0.len() <= reqs.len(),
        run_creations(reqs).1.len() == run_creations(reqs).0.len(),
        forall|i: int|
            0 <= i < run_creations(reqs).1.len() ==> #[trigger] run_creations(reqs).1[i] == i,
        forall|i: int, j: int|
            0 <= i < j < run_creations(reqs).1.len() ==> run_creations(reqs).1[i]
                < run_creations(reqs).1[j],
    decreases reqs.len(),
{
    if reqs.len() > 0 {
        let prev = reqs.drop_last();
        lemma_identifiers_sequential(prev);
        let (s, ids) = run_creations(prev);
        let (next, r) = create_request_step(s, reqs.last());
        match r {
            Ok(id) => {
                assert(id == s.len());
                assert(run_creations(reqs).1 == ids.push(id));
                assert forall|i: int| 0 <= i < ids.len() + 1 implies #[trigger] ids.push(id)[i]
                    == i by {
                    if i < ids.len() {
                        assert(ids.push(id)[i] == ids[i]);
                    }
                }
            },
            Err(_) => {},
        }
    }
}

/// A released envelope stays released: a claim or reclaim of it fails and
/// leaves the ledger unchanged, and no claim or reclaim of any envelope clears
/// a flag that was set.
pub proof fn lemma_release_is_terminal(
    s: Seq<Envelope>,
    id: u64,
    is_claim: bool,
    authorized: bool,
    now: u64,
    digest: Seq<u8>,
)
    ensures
        id < s.len() && s[id as int].claimed ==> {
            &&& release_step(s, id, is_claim, authorized, now, digest).1 is Err
            &&& release_step(s, id, is_claim, authorized, now, digest).0 == s
        },
        release_step(s, id, is_claim, authorized, now, digest).0.len() == s.len(),
        forall|j: int|
            0 <= j < s.len() && #[trigger] s[j].claimed ==> release_step(
                s,
                id,
                is_claim,
                authorized,
                now,
                digest,
            ).0[j].claimed,
{
}

/// Of two claim or reclaim attempts on the same unclaimed envelope, each of
/// which would succeed alone, the one served first succeeds and the other then
/// fails with `AlreadyReleased`.
pub proof fn lemma_single_release(
    s: Seq<Envelope>,
    id: u64,
    first_is_claim: bool,
    first_authorized: bool,
    first_now: u64,
    first_digest: Seq<u8>,
    second_is_claim: bool,
    second_authorized: bool,
    second_now: u64,
    second_digest: Seq<u8>,
)
    requires
        id < s.len(),
        !s[id as int].claimed,
        release_step(s, id, first_is_claim, first_authorized, first_now, first_digest).1 is Ok,
        release_step(s, id, second_is_claim, second_authorized, second_now, second_digest).1 is Ok,
    ensures
        release_step(
            release_step(s, id, first_is_claim, first_authorized, first_now, first_digest).0,
            id,
            second_is_claim,
            second_authorized,
            second_now,
            second_digest,
        ).1 == Err::<(), EnvelopeError>(EnvelopeError::AlreadyReleased),
{
}

} // verus!
