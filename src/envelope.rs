//! A single envelope record and the rules that govern its lifecycle.

use vstd::prelude::*;
use crate::digest::{secret_digest, sha256_of};

verus! {

/// Why an operation on the ledger was refused.
#[derive(Clone, Copy, Debug, PartialEq, Eq, Structural)]
pub enum EnvelopeError {
    /// The host could not prove that the required party authorized the call.
    NotAuthorized,
    /// The unlock time is not in the future, or the expiry is not after it.
    InvalidTimeWindow,
    /// The amount is not strictly positive.
    InvalidAmount,
    /// No envelope has the given identifier.
    NotFound,
    /// The envelope was already claimed or reclaimed.
    AlreadyReleased,
    /// A claim came before the unlock time.
    StillLocked,
    /// A claim came at or after the expiry time.
    WindowExpired,
    /// The digest of the revealed secret differs from the commitment.
    SecretMismatch,
    /// A reclaim came before the expiry time.
    NotYetExpired,
}

/// An amount locked under the SHA-256 commitment of a secret and a time window.
pub struct Envelope {
    /// The creator, who may reclaim the amount once the envelope has expired.
    pub owner: soroban_sdk::Address,
    /// The recipient, who may claim the amount by revealing the secret.
    pub beneficiary: soroban_sdk::Address,
    /// The locked amount, in the smallest unit of value.
    pub amount: i128,
    /// SHA-256 digest of the secret.
    pub secret_hash: [u8; 32],
    /// First instant at which a claim is allowed.
    pub unlock_time: u64,
    /// First instant at which a claim is refused and a reclaim allowed.
    pub expiry_time: u64,
    /// Set once by a successful claim or reclaim, and never cleared.
    pub claimed: bool,
}

/// Outcome of a creation request: the checks in the order the ledger makes them.
pub open spec fn creation_result(
    authorized: bool,
    now: u64,
    amount: i128,
    unlock_time: u64,
    expiry_time: u64,
) -> Result<(), EnvelopeError> {
    if !authorized {
        Err(EnvelopeError::NotAuthorized)
    } else if unlock_time <= now {
        Err(EnvelopeError::InvalidTimeWindow)
    } else if expiry_time <= unlock_time {
        Err(EnvelopeError::InvalidTimeWindow)
    } else if amount <= 0 {
        Err(EnvelopeError::InvalidAmount)
    } else {
        Ok(())
    }
}

impl Envelope {
    /// What creation guarantees of every stored envelope.
    pub open spec fn valid(&self) -> bool {
        self.amount > 0 && self.unlock_time < self.expiry_time
    }

    /// The same envelope with its terminal flag set.
    pub open spec fn released(&self) -> Envelope {
        Envelope {
            owner: self.owner,
            beneficiary: self.beneficiary,
            amount: self.amount,
            secret_hash: self.secret_hash,
            unlock_time: self.unlock_time,
            expiry_time: self.expiry_time,
            claimed: true,
        }
    }

    /// Outcome of a claim that reveals a secret with the given digest at `now`.
    pub open spec fn claim_result(&self, authorized: bool, now: u64, digest: Seq<u8>) -> Result<
        (),
        EnvelopeError,
    > {
        if !authorized {
            Err(EnvelopeError::NotAuthorized)
        } else if self.claimed {
            Err(EnvelopeError::AlreadyReleased)
        } else if now < self.unlock_time {
            Err(EnvelopeError::StillLocked)
        } else if now >= self.expiry_time {
            Err(EnvelopeError::WindowExpired)
        } else if digest != self.secret_hash@ {
            Err(EnvelopeError::SecretMismatch)
        } else {
            Ok(())
        }
    }

    /// Outcome of a reclaim by the owner at `now`.
    pub open spec fn reclaim_result(&self, authorized: bool, now: u64) -> Result<(), EnvelopeError> {
        if !authorized {
            Err(EnvelopeError::NotAuthorized)
        } else if self.claimed {
            Err(EnvelopeError::AlreadyReleased)
        } else if now < self.expiry_time {
            Err(EnvelopeError::NotYetExpired)
        } else {
            Ok(())
        }
    }

    /// Builds an unclaimed envelope after the creation checks; `authorized`
    /// tells whether the host proved that `owner` authorized the call.
    pub fn new(
        authorized: bool,
        now: u64,
        owner: soroban_sdk::Address,
        beneficiary: soroban_sdk::Address,
        amount: i128,
        secret_hash: [u8; 32],
        unlock_time: u64,
        expiry_time: u64,
    ) -> (r: Result<Envelope, EnvelopeError>)
        ensures
            match creation_result(authorized, now, amount, unlock_time, expiry_time) {
                Ok(()) => r == Ok::<Envelope, EnvelopeError>(
                    Envelope {
                        owner,
                        beneficiary,
                        amount,
                        secret_hash,
                        unlock_time,
                        expiry_time,
                        claimed: false,
                    },
                ),
                Err(e) => r == Err::<Envelope, EnvelopeError>(e),
            },
    {
        if !authorized {
            Err(EnvelopeError::NotAuthorized)
        } else if unlock_time <= now {
            Err(EnvelopeError::InvalidTimeWindow)
        } else if expiry_time <= unlock_time {
            Err(EnvelopeError::InvalidTimeWindow)
        } else if amount <= 0 {
            Err(EnvelopeError::InvalidAmount)
        } else {
            Ok(
                Envelope {
                    owner,
                    beneficiary,
                    amount,
                    secret_hash,
                    unlock_time,
                    expiry_time,
                    claimed: false,
                },
            )
        }
    }

    /// Claims the envelope for its beneficiary, given the digest of the revealed
    /// secret; `authorized` tells whether the host proved that the beneficiary
    /// authorized the call.
    pub fn claim_with_digest(&mut self, authorized: bool, now: u64, digest: &[u8; 32]) -> (r: Result<
        (),
        EnvelopeError,
    >)
        ensures
            r == old(self).claim_result(authorized, now, digest@),
            *final(self) == if r is Ok {
                old(self).released()
            } else {
                *old(self)
            },
    {
        if !authorized {
            return Err(EnvelopeError::NotAuthorized);
        }
        if self.claimed {
            return Err(EnvelopeError::AlreadyReleased);
        }
        if now < self.unlock_time {
            return Err(EnvelopeError::StillLocked);
        }
        if now >= self.expiry_time {
            return Err(EnvelopeError::WindowExpired);
        }
        if !crate::digest::digests_equal(digest, &self.secret_hash) {
            return Err(EnvelopeError::SecretMismatch);
        }
        self.claimed = true;
        Ok(())
    }

    /// Claims the envelope for its beneficiary with the revealed `secret`, whose
    /// SHA-256 digest the host computes; `authorized` tells whether the host
    /// proved that the beneficiary authorized the call.
    pub fn claim(
        &mut self,
        env: &soroban_sdk::Env,
        authorized: bool,
        now: u64,
        secret: &Vec<u8>,
    ) -> (r: Result<(), EnvelopeError>)
        ensures
            r == old(self).claim_result(authorized, now, sha256_of(secret@)),
            *final(self) == if r is Ok {
                old(self).released()
            } else {
                *old(self)
            },
    {
        let digest = secret_digest(env, secret);
        self.claim_with_digest(authorized, now, &digest)
    }

    /// Returns the envelope to its owner once it has expired unclaimed;
    /// `authorized` tells whether the host proved that the owner authorized the
    /// call.
    pub fn reclaim(&mut self, authorized: bool, now: u64) -> (r: Result<(), EnvelopeError>)
        ensures
            r == old(self).reclaim_result(authorized, now),
            *final(self) == if r is Ok {
                old(self).released()
            } else {
                *old(self)
            },
    {
        if !authorized {
            return Err(EnvelopeError::NotAuthorized);
        }
        if self.claimed {
            return Err(EnvelopeError::AlreadyReleased);
        }
        if now < self.expiry_time {
            return Err(EnvelopeError::NotYetExpired);
        }
        self.claimed = true;
        Ok(())
    }
}

} // verus!
