//! The per-family transformations applied by worker stages.
//!
//! Each family maps a byte sequence to a fixed-length digest.  The
//! transformations themselves are opaque pure functions computed by
//! outside code; the pipeline only relies on them being functions of the
//! input bytes alone, with a fixed output length.

use vstd::prelude::*;
use sha2::Digest;

verus! {

/// The two worker families, each with its own transformation.
#[derive(Clone, Copy, PartialEq, Eq, Structural, Debug)]
pub enum HashFamily {
    Sha512,
    Blake3,
}

/// The SHA-512 digest of a byte sequence, as a function of the bytes alone.
pub uninterp spec fn sha512_of(input: Seq<u8>) -> Seq<u8>;

/// The BLAKE3 digest of a byte sequence, as a function of the bytes alone.
pub uninterp spec fn blake3_of(input: Seq<u8>) -> Seq<u8>;

/// The transformation a family applies to one item.
pub open spec fn family_digest(f: HashFamily, input: Seq<u8>) -> Seq<u8> {
    match f {
        HashFamily::Sha512 => sha512_of(input),
        HashFamily::Blake3 => blake3_of(input),
    }
}

/// Every family produces digests of one fixed length.
pub open spec fn family_digest_len(f: HashFamily) -> nat {
    match f {
        HashFamily::Sha512 => 64,
        HashFamily::Blake3 => 32,
    }
}

/// Relies on sha2::Sha512::digest: a pure function of the input bytes,
/// whose output is always 64 bytes.
#[verifier::external_body]
fn sha512_digest(input: &Vec<u8>) -> (r: Vec<u8>)
    ensures
        r@ == sha512_of(input@),
        r@.len() == 64,
{
    sha2::Sha512::digest(input).as_slice().to_vec()
}

/// Relies on blake3::hash: a pure function of the input bytes, whose
/// output is always 32 bytes.
#[verifier::external_body]
fn blake3_digest(input: &Vec<u8>) -> (r: Vec<u8>)
    ensures
        r@ == blake3_of(input@),
        r@.len() == 32,
{
    blake3::hash(input.as_slice()).as_bytes().to_vec()
}

/// What one worker does to one popped item: apply its family's
/// transformation and hand the digest on, untouched and exactly once.
pub fn apply_family(f: HashFamily, input: &Vec<u8>) -> (r: Vec<u8>)
    ensures
        r@ == family_digest(f, input@),
        r@.len() == family_digest_len(f),
{
    match f {
        HashFamily::Sha512 => sha512_digest(input),
        HashFamily::Blake3 => blake3_digest(input),
    }
}

} // verus!
