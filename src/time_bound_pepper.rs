use vstd::prelude::*;
use crate::byte_array_32::{ByteArray32, or_of, u64_block};
use crate::digest::{blake3_digest, blake3_of};

verus! {

/// Seconds since the Unix epoch.
pub type Timestamp = u64;

/// The length of a time slot, in seconds.
pub const SLOT_SECONDS: u64 = 120;

/// The index of the slot that holds `t`.
pub open spec fn slot_of(t: Timestamp) -> u64 {
    t / SLOT_SECONDS
}

/// The pepper of a slot: the digest of the secret combined by bitwise OR
/// with the block of the slot index.
pub open spec fn pepper_of(secret: Seq<u8>, t: Timestamp) -> Seq<u8> {
    blake3_of(or_of(secret, u64_block(slot_of(t))))
}

/// A secret-dependent value that changes from one time slot to the next.
#[derive(Clone, Copy, Debug, PartialEq, Eq)]
pub struct TimeBoundPepper {
    pepper: ByteArray32,
}

impl View for TimeBoundPepper {
    type V = Seq<u8>;

    closed spec fn view(&self) -> Seq<u8> {
        self.pepper@
    }
}

impl TimeBoundPepper {
    /// The pepper of `server_secret` for the slot that holds `current_timestamp`.
    pub fn new(server_secret: &ByteArray32, current_timestamp: Timestamp) -> (r: TimeBoundPepper)
        ensures
            r@ == pepper_of(server_secret@, current_timestamp),
    {
        let slot: u64 = current_timestamp / SLOT_SECONDS;
        let counter = ByteArray32::from(slot);
        let input = server_secret.bitor(&counter).as_generic_byte_array();
        let digest = blake3_digest(input.as_slice());
        TimeBoundPepper { pepper: ByteArray32::new(digest) }
    }

    pub fn get_pepper(&self) -> (r: ByteArray32)
        ensures
            r@ == self@,
    {
        self.pepper
    }
}

} // verus!
