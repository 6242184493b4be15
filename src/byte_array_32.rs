use vstd::prelude::*;
use crate::int_bytes::be_bytes_of;

verus! {

/// A block of 32 bytes.
#[derive(Clone, Copy, Debug, PartialEq, Eq)]
pub struct ByteArray32 {
    bytes: [u8; 32],
}

/// The position-by-position bitwise OR of two byte strings of equal length.
pub open spec fn or_of(a: Seq<u8>, b: Seq<u8>) -> Seq<u8> {
    Seq::new(a.len(), |i: int| a[i] | b[i])
}

impl View for ByteArray32 {
    type V = Seq<u8>;

    closed spec fn view(&self) -> Seq<u8> {
        self.bytes@
    }
}

impl ByteArray32 {
    /// The block whose bytes are `s`, for a string of 32 bytes.
    pub closed spec fn of_bytes(s: Seq<u8>) -> ByteArray32 {
        choose|b: ByteArray32| b@ == s
    }

    /// Every block holds 32 bytes, and a block is determined by its bytes.
    pub proof fn lemma_view(self)
        ensures
            self@.len() == 32,
            ByteArray32::of_bytes(self@) == self,
    {
        let b = ByteArray32::of_bytes(self@);
        assert(b.bytes =~= self.bytes);
    }

    pub fn new(bytes: [u8; 32]) -> (r: ByteArray32)
        ensures
            r@ == bytes@,
            r == ByteArray32::of_bytes(bytes@),
    {
        let r = ByteArray32 { bytes };
        proof {
            r.lemma_view();
        }
        r
    }

    /// The 32 bytes of the block.
    pub fn as_generic_byte_array(&self) -> (r: [u8; 32])
        ensures
            r@ == self@,
    {
        self.bytes
    }

    /// The bitwise OR of two blocks, byte by byte.
    pub fn bitor(&self, other: &ByteArray32) -> (r: ByteArray32)
        ensures
            r@ == or_of(self@, other@),
    {
        let mut bytes: [u8; 32] = [0u8; 32];
        let mut i: usize = 0;
        while i < 32
            invariant
                i <= 32,
                bytes@.len() == 32,
                forall|j: int| 0 <= j < i ==> bytes@[j] == self@[j] | other@[j],
            decreases 32 - i,
        {
            bytes[i] = self.bytes[i] | other.bytes[i];
            i = i + 1;
        }
        assert(bytes@ =~= or_of(self@, other@));
        ByteArray32 { bytes }
    }
}

/// The block of a number: 24 zero bytes, then the number in big-endian
/// order.
pub open spec fn u64_block(x: u64) -> Seq<u8> {
    Seq::new(24, |_i: int| 0u8) + be_bytes_of(x)
}

impl From<u64> for ByteArray32 {
    fn from(x: u64) -> (r: ByteArray32)
        ensures
            r@ == u64_block(x),
    {
        let mut bytes: [u8; 32] = [0u8; 32];
        bytes[24] = (x / 0x100_0000_0000_0000 % 0x100) as u8;
        bytes[25] = (x / 0x1_0000_0000_0000 % 0x100) as u8;
        bytes[26] = (x / 0x100_0000_0000 % 0x100) as u8;
        bytes[27] = (x / 0x1_0000_0000 % 0x100) as u8;
        bytes[28] = (x / 0x100_0000 % 0x100) as u8;
        bytes[29] = (x / 0x1_0000 % 0x100) as u8;
        bytes[30] = (x / 0x100 % 0x100) as u8;
        bytes[31] = (x % 0x100) as u8;
        assert(bytes@ =~= u64_block(x));
        ByteArray32::new(bytes)
    }
}

impl vstd::std_specs::convert::FromSpecImpl<u64> for ByteArray32 {
    open spec fn obeys_from_spec() -> bool {
        true
    }

    open spec fn from_spec(x: u64) -> ByteArray32 {
        ByteArray32::of_bytes(u64_block(x))
    }
}

} // verus!
