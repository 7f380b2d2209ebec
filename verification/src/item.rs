//! Items flowing through the pipeline.
//!
//! The generator numbers its items consecutively and serializes each index
//! to a fixed-width little-endian byte sequence; that byte sequence is
//! what travels through the channels and what the workers digest.

use vstd::prelude::*;

verus! {

/// The eight little-endian bytes of an item index.
pub open spec fn le_bytes_of(value: u64) -> Seq<u8> {
    seq![
        (value & 0xff) as u8,
        ((value >> 8) & 0xff) as u8,
        ((value >> 16) & 0xff) as u8,
        ((value >> 24) & 0xff) as u8,
        ((value >> 32) & 0xff) as u8,
        ((value >> 40) & 0xff) as u8,
        ((value >> 48) & 0xff) as u8,
        ((value >> 56) & 0xff) as u8,
    ]
}

/// Serialize one item index to its fixed-width wire form.
pub fn encode_item(value: u64) -> (r: Vec<u8>)
    ensures
        r@ == le_bytes_of(value),
        r@.len() == 8,
{
    proof {
        assert(value & 0xff < 256) by (bit_vector);
        assert((value >> 8) & 0xff < 256) by (bit_vector);
        assert((value >> 16) & 0xff < 256) by (bit_vector);
        assert((value >> 24) & 0xff < 256) by (bit_vector);
        assert((value >> 32) & 0xff < 256) by (bit_vector);
        assert((value >> 40) & 0xff < 256) by (bit_vector);
        assert((value >> 48) & 0xff < 256) by (bit_vector);
        assert((value >> 56) & 0xff < 256) by (bit_vector);
    }
    let mut r: Vec<u8> = Vec::new();
    r.push((value & 0xff) as u8);
    r.push(((value >> 8) & 0xff) as u8);
    r.push(((value >> 16) & 0xff) as u8);
    r.push(((value >> 24) & 0xff) as u8);
    r.push(((value >> 32) & 0xff) as u8);
    r.push(((value >> 40) & 0xff) as u8);
    r.push(((value >> 48) & 0xff) as u8);
    r.push(((value >> 56) & 0xff) as u8);
    proof {
        assert(r@ =~= le_bytes_of(value));
    }
    r
}

} // verus!
