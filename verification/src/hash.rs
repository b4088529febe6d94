//! 32-byte hashes and the Merkle hashing that produces them.

use vstd::prelude::*;
use vstd::string::StringExecFns;

use crate::encoding::{be_bytes, be_bytes_32, hex_spec, le_bytes, le_bytes_32, push_hex};

verus! {

/// A 32-byte hash.
#[derive(Clone, Copy, Debug, PartialEq, Eq)]
pub struct Hash256 {
    pub bytes: [u8; 32],
}

impl View for Hash256 {
    type V = Seq<u8>;

    open spec fn view(&self) -> Seq<u8> {
        self.bytes@
    }
}

/// The text form of a byte string on the wire: `0x`, then the bytes in
/// lower-case hexadecimal.
pub open spec fn prefixed_hex_spec(bytes: Seq<u8>) -> Seq<char> {
    "0x"@ + hex_spec(bytes)
}

/// Appends `0x` and the hexadecimal form of `bytes` to `out`.
pub fn push_prefixed_hex(out: &mut String, bytes: &[u8])
    ensures
        final(out)@ == old(out)@ + prefixed_hex_spec(bytes@),
{
    out.append("0x");
    push_hex(out, bytes);
    assert(out@ =~= old(out)@ + prefixed_hex_spec(bytes@));
}

impl Hash256 {
    /// The hash of 32 zero bytes.
    pub fn zero() -> (r: Hash256)
        ensures
            r@ == Seq::new(32, |i: int| 0u8),
    {
        let r = Hash256 { bytes: [0u8; 32] };
        assert(r@ =~= Seq::new(32, |i: int| 0u8));
        r
    }

    /// The hash whose last eight bytes hold `v`, most significant byte
    /// first, and whose other bytes are zero.
    pub fn from_low_u64_be(v: u64) -> (r: Hash256)
        ensures
            r@ == be_bytes(v as nat, 32),
    {
        Hash256 { bytes: be_bytes_32(v) }
    }

    /// The hash whose first eight bytes hold `v`, least significant byte
    /// first, and whose other bytes are zero: the Merkle root of a lone
    /// 64-bit number.
    pub fn from_u64_le(v: u64) -> (r: Hash256)
        ensures
            r@ == le_bytes(v as nat, 32),
    {
        Hash256 { bytes: le_bytes_32(v) }
    }

    /// The hash as it is written on the wire.
    pub fn to_hex(&self) -> (r: String)
        ensures
            r@ == prefixed_hex_spec(self@),
    {
        let mut out = String::new();
        push_prefixed_hex(&mut out, self.bytes.as_slice());
        assert(out@ =~= prefixed_hex_spec(self@));
        out
    }
}

/// The Merkle root that `tree_hash::merkle_root` gives for `bytes` when
/// asked for at least `minimum_leaf_count` leaves.
pub uninterp spec fn merkle_root_of(bytes: Seq<u8>, minimum_leaf_count: int) -> Seq<u8>;

/// Calls `tree_hash::merkle_root`.
///
/// Trusted: the result is the crate's Merkle root of the input, a function
/// of the two arguments alone. The inputs are held to 64 bytes and two
/// leaves, where the outside function hashes one padded 64-byte block and
/// has no failing path.
#[verifier::external_body]
pub(crate) fn merkle_root(bytes: &[u8], minimum_leaf_count: usize) -> (root: [u8; 32])
    requires
        bytes@.len() == 64,
        minimum_leaf_count <= 2,
    ensures
        root@ == merkle_root_of(bytes@, minimum_leaf_count as int),
{
    tree_hash::merkle_root(bytes, minimum_leaf_count).0
}

/// The 64 bytes that two 32-byte nodes form side by side.
pub open spec fn node_pair_spec(left: Seq<u8>, right: Seq<u8>) -> Seq<u8> {
    left + right
}

/// The parent of two 32-byte nodes in a Merkle tree.
pub open spec fn hash_pair_spec(left: Seq<u8>, right: Seq<u8>) -> Seq<u8> {
    merkle_root_of(node_pair_spec(left, right), 0)
}

/// Lays two 32-byte nodes side by side.
pub fn node_pair(left: &[u8; 32], right: &[u8; 32]) -> (r: [u8; 64])
    ensures
        r@ == node_pair_spec(left@, right@),
{
    let mut out = [0u8; 64];
    let mut i: usize = 0;
    while i < 32
        invariant
            i <= 32,
            forall|j: int| 0 <= j < i ==> out@[j] == left@[j],
            forall|j: int| 32 <= j < 32 + i ==> out@[j] == right@[j - 32],
        decreases 32 - i,
    {
        out[i] = left[i];
        out[32 + i] = right[i];
        i = i + 1;
    }
    assert(out@ =~= node_pair_spec(left@, right@));
    out
}

/// Hashes two 32-byte nodes into their parent.
pub fn hash_pair(left: &[u8; 32], right: &[u8; 32]) -> (r: [u8; 32])
    ensures
        r@ == hash_pair_spec(left@, right@),
{
    let block = node_pair(left, right);
    merkle_root(block.as_slice(), 0)
}

} // verus!
