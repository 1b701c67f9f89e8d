use vstd::prelude::*;

verus! {

/// The low 32 bits of an amount.
pub open spec fn lo_of(x: u64) -> u32 {
    (x & 0xFFFF_FFFFu64) as u32
}

/// The high 32 bits of an amount.
pub open spec fn hi_of(x: u64) -> u32 {
    (x >> 32u64) as u32
}

/// The amount whose low half is `lo` and whose high half is `hi`.
pub open spec fn joined(lo: u32, hi: u32) -> int {
    lo as int + hi as int * 0x1_0000_0000
}

/// Splits an amount into its low and high 32-bit halves.
pub fn split_amount(x: u64) -> (r: (u32, u32))
    ensures
        r.0 == lo_of(x),
        r.1 == hi_of(x),
        joined(r.0, r.1) == x as int,
{
    let lo: u64 = x & 0xFFFF_FFFFu64;
    let hi: u64 = x >> 32u64;
    assert(lo < 0x1_0000_0000 && hi < 0x1_0000_0000) by (bit_vector)
        requires
            lo == x & 0xFFFF_FFFFu64,
            hi == x >> 32u64,
    ;
    assert(lo + hi * 0x1_0000_0000 == x) by (bit_vector)
        requires
            lo == x & 0xFFFF_FFFFu64,
            hi == x >> 32u64,
    ;
    (lo as u32, hi as u32)
}

/// Recombines a low and a high 32-bit half into one amount.
pub fn join_amount(lo: u32, hi: u32) -> (r: u64)
    ensures
        r as int == joined(lo, hi),
{
    let l: u64 = lo as u64;
    let h: u64 = hi as u64;
    assert(h * 0x1_0000_0000 + l <= 0xFFFF_FFFF_FFFF_FFFF) by (nonlinear_arith)
        requires
            h < 0x1_0000_0000,
            l < 0x1_0000_0000,
    ;
    h * 0x1_0000_0000 + l
}

/// Splitting an amount and joining the halves gives the amount back, and the
/// halves are its low and high 32 bits.
pub proof fn lemma_split_join(x: u64)
    ensures
        joined(lo_of(x), hi_of(x)) == x as int,
        hi_of(x) as u64 == x >> 32u64,
        lo_of(x) as u64 == x & 0xFFFF_FFFFu64,
{
    let lo: u64 = x & 0xFFFF_FFFFu64;
    let hi: u64 = x >> 32u64;
    assert(lo < 0x1_0000_0000 && hi < 0x1_0000_0000 && lo + hi * 0x1_0000_0000 == x)
        by (bit_vector)
        requires
            lo == x & 0xFFFF_FFFFu64,
            hi == x >> 32u64,
    ;
}

/// Joining two halves and splitting the result gives the halves back.
pub proof fn lemma_join_split(lo: u32, hi: u32)
    ensures
        0 <= joined(lo, hi) <= u64::MAX,
        lo_of(joined(lo, hi) as u64) == lo,
        hi_of(joined(lo, hi) as u64) == hi,
{
    let l: u64 = lo as u64;
    let h: u64 = hi as u64;
    assert(h * 0x1_0000_0000 + l <= 0xFFFF_FFFF_FFFF_FFFF) by (nonlinear_arith)
        requires
            h < 0x1_0000_0000,
            l < 0x1_0000_0000,
    ;
    let x: u64 = (h * 0x1_0000_0000 + l) as u64;
    assert((x & 0xFFFF_FFFFu64) == l && (x >> 32u64) == h) by (bit_vector)
        requires
            h < 0x1_0000_0000,
            l < 0x1_0000_0000,
            x == h * 0x1_0000_0000 + l,
    ;
}

} // verus!
