//! Hash- and time-locked envelopes: a creator locks an amount under the
//! SHA-256 commitment of a secret and a time window; the beneficiary redeems it
//! by revealing the secret inside the window, and once the window has lapsed
//! unredeemed the creator may take it back.
//!
//! The host environment (authorization, the ledger clock, persistence) stays
//! outside: each operation receives the current time and the outcome of the
//! host's authorization check as plain arguments.

pub mod digest;
pub mod envelope;
pub mod ledger;

pub use digest::digests_equal;
pub use envelope::{Envelope, EnvelopeError};
pub use ledger::{DataKey, HashLockedEnvelopesContract};
