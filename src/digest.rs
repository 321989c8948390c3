//! The commitment scheme: SHA-256 digests of secrets, computed by the host.

use vstd::prelude::*;

verus! {

/// Host environment handle of the Soroban SDK, carried through to the host's
/// hash function.
#[verifier::external_type_specification]
#[verifier::external_body]
pub struct ExEnv(soroban_sdk::Env);

/// Account or contract address of the Soroban SDK; opaque to the library.
#[verifier::external_type_specification]
#[verifier::external_body]
pub struct ExAddress(soroban_sdk::Address);

/// The SHA-256 digest of a byte sequence, as the host computes it.
pub uninterp spec fn sha256_of(data: Seq<u8>) -> Seq<u8>;

/// Relies on `soroban_sdk::crypto::Crypto::sha256`: the digest depends on the
/// bytes alone.
#[verifier::external_body]
pub(crate) fn secret_digest(env: &soroban_sdk::Env, secret: &Vec<u8>) -> (r: [u8; 32])
    ensures
        r@ == sha256_of(secret@),
{
    let bytes = soroban_sdk::Bytes::from_slice(env, secret.as_slice());
    env.crypto().sha256(&bytes).to_array()
}

/// Compares two digests byte by byte over their whole fixed length.
pub fn digests_equal(a: &[u8; 32], b: &[u8; 32]) -> (r: bool)
    ensures
        r == (a@ == b@),
{
    let mut i: usize = 0;
    while i < 32
        invariant
            0 <= i <= 32,
            a@.len() == 32,
            b@.len() == 32,
            forall|j: int| 0 <= j < i ==> a@[j] == b@[j],
        decreases 32 - i,
    {
        if a[i] != b[i] {
            assert(a@[i as int] != b@[i as int]);
            return false;
        }
        i = i + 1;
    }
    assert(a@ =~= b@);
    true
}

} // verus!
