use vstd::prelude::*;

verus! {

/// The eight bytes of `x`, most significant first.
pub open spec fn be_bytes_of(x: u64) -> Seq<u8> {
    seq![
        (x / 0x100_0000_0000_0000 % 0x100) as u8,
        (x / 0x1_0000_0000_0000 % 0x100) as u8,
        (x / 0x100_0000_0000 % 0x100) as u8,
        (x / 0x1_0000_0000 % 0x100) as u8,
        (x / 0x100_0000 % 0x100) as u8,
        (x / 0x1_0000 % 0x100) as u8,
        (x / 0x100 % 0x100) as u8,
        (x % 0x100) as u8,
    ]
}

/// The unsigned value of the first eight bytes of `s`, read least
/// significant first.
pub open spec fn le_unsigned_of(s: Seq<u8>) -> int
    recommends
        s.len() >= 8,
{
    s[0] as int + s[1] as int * 0x100 + s[2] as int * 0x1_0000 + s[3] as int * 0x100_0000
        + s[4] as int * 0x1_0000_0000 + s[5] as int * 0x100_0000_0000 + s[6] as int
        * 0x1_0000_0000_0000 + s[7] as int * 0x100_0000_0000_0000
}

/// The signed (two's complement) value of the first eight bytes of `s`,
/// read least significant first.
pub open spec fn le_signed_of(s: Seq<u8>) -> int
    recommends
        s.len() >= 8,
{
    let u = le_unsigned_of(s);
    if u < 0x8000_0000_0000_0000 {
        u
    } else {
        u - 0x1_0000_0000_0000_0000
    }
}

/// Reads the first eight bytes of `b` as a signed integer, least
/// significant byte first.
pub fn i64_from_le_prefix(b: &[u8; 32]) -> (r: i64)
    ensures
        r as int == le_signed_of(b@),
{
    let u: u64 = b[0] as u64 + b[1] as u64 * 0x100 + b[2] as u64 * 0x1_0000 + b[3] as u64
        * 0x100_0000 + b[4] as u64 * 0x1_0000_0000 + b[5] as u64 * 0x100_0000_0000 + b[6] as u64
        * 0x1_0000_0000_0000 + b[7] as u64 * 0x100_0000_0000_0000;
    if u < 0x8000_0000_0000_0000 {
        u as i64
    } else {
        (u - 0x8000_0000_0000_0000) as i64 + i64::MIN
    }
}

} // verus!
