//! Big-endian integer fields of the wire format, and the one-byte type tag.
//!
//! Every multi-byte integer on the wire is big-endian: the path length is two
//! bytes, a file's size is eight. The specs below are the single definition of
//! those byte layouts; encoders and decoders on both sides are proved against
//! them, and the round-trip lemmas say that parsing undoes encoding exactly.

use vstd::prelude::*;

verus! {

/// Type tag of a frame that describes a regular file.
pub const TYPE_FILE: u8 = 0;

/// Type tag of a frame that describes a directory.
pub const TYPE_DIR: u8 = 1;

/// The two big-endian bytes of a 16-bit value.
pub open spec fn spec_u16_be(n: u16) -> Seq<u8> {
    seq![((n >> 8) & 0xff) as u8, (n & 0xff) as u8]
}

/// The 16-bit value read from two big-endian bytes.
pub open spec fn spec_u16_from_be(b0: u8, b1: u8) -> u16 {
    ((b0 as u16) << 8) | (b1 as u16)
}

/// The eight big-endian bytes of a 64-bit value.
pub open spec fn spec_u64_be(n: u64) -> Seq<u8> {
    seq![
        ((n >> 56) & 0xff) as u8,
        ((n >> 48) & 0xff) as u8,
        ((n >> 40) & 0xff) as u8,
        ((n >> 32) & 0xff) as u8,
        ((n >> 24) & 0xff) as u8,
        ((n >> 16) & 0xff) as u8,
        ((n >> 8) & 0xff) as u8,
        (n & 0xff) as u8,
    ]
}

/// The 64-bit value read from eight big-endian bytes.
pub open spec fn spec_u64_from_be(b: Seq<u8>) -> u64
    recommends
        b.len() == 8,
{
    ((b[0] as u64) << 56) | ((b[1] as u64) << 48) | ((b[2] as u64) << 40) | ((b[3] as u64) << 32)
        | ((b[4] as u64) << 24) | ((b[5] as u64) << 16) | ((b[6] as u64) << 8) | (b[7] as u64)
}

/// Parsing the two big-endian bytes of a 16-bit value yields it back.
pub proof fn lemma_u16_be_round_trip(n: u16)
    ensures
        spec_u16_from_be(spec_u16_be(n)[0], spec_u16_be(n)[1]) == n,
{
    assert(((((n >> 8) & 0xff) as u8) as u16) << 8 | (((n & 0xff) as u8) as u16) == n)
        by (bit_vector);
}

/// Parsing the eight big-endian bytes of a 64-bit value yields it back.
pub proof fn lemma_u64_be_round_trip(n: u64)
    ensures
        spec_u64_from_be(spec_u64_be(n)) == n,
{
    assert((((((n >> 56) & 0xff) as u8) as u64) << 56) | (((((n >> 48) & 0xff) as u8) as u64)
        << 48) | (((((n >> 40) & 0xff) as u8) as u64) << 40) | (((((n >> 32) & 0xff) as u8) as u64)
        << 32) | (((((n >> 24) & 0xff) as u8) as u64) << 24) | (((((n >> 16) & 0xff) as u8) as u64)
        << 16) | (((((n >> 8) & 0xff) as u8) as u64) << 8) | (((n & 0xff) as u8) as u64) == n)
        by (bit_vector);
}

/// Encodes a 16-bit value as its two big-endian bytes.
pub fn u16_to_be_bytes(n: u16) -> (r: (u8, u8))
    ensures
        seq![r.0, r.1] == spec_u16_be(n),
{
    (((n >> 8) & 0xff) as u8, (n & 0xff) as u8)
}

/// Reads a 16-bit value from its two big-endian bytes.
pub fn u16_from_be_bytes(b0: u8, b1: u8) -> (r: u16)
    ensures
        r == spec_u16_from_be(b0, b1),
{
    ((b0 as u16) << 8) | (b1 as u16)
}

/// Encodes a 64-bit value as its eight big-endian bytes.
pub fn u64_to_be_bytes(n: u64) -> (r: Vec<u8>)
    ensures
        r@ == spec_u64_be(n),
{
    let mut out: Vec<u8> = Vec::new();
    out.push(((n >> 56) & 0xff) as u8);
    out.push(((n >> 48) & 0xff) as u8);
    out.push(((n >> 40) & 0xff) as u8);
    out.push(((n >> 32) & 0xff) as u8);
    out.push(((n >> 24) & 0xff) as u8);
    out.push(((n >> 16) & 0xff) as u8);
    out.push(((n >> 8) & 0xff) as u8);
    out.push((n & 0xff) as u8);
    proof {
        assert(out@ =~= spec_u64_be(n));
    }
    out
}

/// Reads a 64-bit value from its eight big-endian bytes.
pub fn u64_from_be_bytes(b: &[u8]) -> (r: u64)
    requires
        b@.len() == 8,
    ensures
        r == spec_u64_from_be(b@),
{
    ((b[0] as u64) << 56) | ((b[1] as u64) << 48) | ((b[2] as u64) << 40) | ((b[3] as u64) << 32)
        | ((b[4] as u64) << 24) | ((b[5] as u64) << 16) | ((b[6] as u64) << 8) | (b[7] as u64)
}

/// Says whether a frame's type tag marks a file. The sender writes
/// `TYPE_FILE` for files and `TYPE_DIR` for directories; the receiver treats
/// every tag other than `TYPE_FILE` as a directory.
pub fn tag_is_file(tag: u8) -> (r: bool)
    ensures
        r == (tag == TYPE_FILE),
{
    tag == TYPE_FILE
}

} // verus!
