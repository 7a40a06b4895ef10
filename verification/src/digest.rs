//! The fingerprint of a message: the SHA-256 digest of its envelope's date
//! followed by its message-id.

use sha2::{Digest, Sha256};
use vstd::prelude::*;

verus! {

/// A fingerprint is a digest of 32 bytes.
pub type Fingerprint = [u8; 32];

/// The SHA-256 digest of `data`, as `sha2::Sha256::digest` returns it. Nothing
/// is said of its value but that the same bytes give the same digest.
pub uninterp spec fn sha256(data: Seq<u8>) -> Seq<u8>;

/// Calls `sha2::Sha256::digest`, which hashes its whole argument in one go
/// and returns the 32 bytes of the digest. Trusted: the result is the SHA-256
/// digest of `data`, a function of the bytes of `data` alone.
#[verifier::external_body]
fn sha256_digest(data: &[u8]) -> (out: Fingerprint)
    ensures
        out@ == sha256(data@),
{
    Sha256::digest(data).into()
}

/// The fingerprint of a message with the given date and message-id.
pub open spec fn fingerprint_of(date: Seq<u8>, message_id: Seq<u8>) -> Seq<u8> {
    sha256(date + message_id)
}

/// Two messages with the same date and different message-ids are hashed from
/// different bytes. (With different dates the bytes can coincide: only the
/// concatenation is hashed, not where the date ends.)
pub proof fn lemma_message_id_shows_in_digest_input(date: Seq<u8>, first: Seq<u8>, second: Seq<u8>)
    requires
        first != second,
    ensures
        date + first != date + second,
{
    if date + first == date + second {
        assert(first =~= (date + first).skip(date.len() as int));
        assert(second =~= (date + second).skip(date.len() as int));
    }
}

/// Computes the fingerprint of a message from the bytes of its envelope's
/// date and message-id. The same pair always gives the same fingerprint.
pub fn fingerprint(date: &[u8], message_id: &[u8]) -> (out: Fingerprint)
    ensures
        out@ == fingerprint_of(date@, message_id@),
        out@.len() == 32,
{
    let mut input: Vec<u8> = Vec::new();
    let mut i: usize = 0;
    while i < date.len()
        invariant
            i <= date@.len(),
            input@ == date@.take(i as int),
        decreases date@.len() - i,
    {
        input.push(date[i]);
        i = i + 1;
    }
    let mut j: usize = 0;
    while j < message_id.len()
        invariant
            j <= message_id@.len(),
            input@ == date@ + message_id@.take(j as int),
        decreases message_id@.len() - j,
    {
        input.push(message_id[j]);
        j = j + 1;
    }
    assert(input@ =~= date@ + message_id@);
    sha256_digest(input.as_slice())
}

} // verus!
