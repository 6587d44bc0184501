//! The Fletcher-16 checksum used to compare snapshots between peers.
use vstd::prelude::*;

verus! {

/// The low running sum of the Fletcher-16 checksum: each byte is added in
/// order, modulo 255.
pub open spec fn spec_fletcher_sum1(data: Seq<u8>) -> int
    decreases data.len(),
{
    if data.len() == 0 {
        0
    } else {
        (spec_fletcher_sum1(data.drop_last()) + data.last()) % 255
    }
}

/// The high running sum of the Fletcher-16 checksum: after each byte, the low
/// sum is added in, modulo 255.
pub open spec fn spec_fletcher_sum2(data: Seq<u8>) -> int
    decreases data.len(),
{
    if data.len() == 0 {
        0
    } else {
        (spec_fletcher_sum2(data.drop_last()) + spec_fletcher_sum1(data)) % 255
    }
}

/// The Fletcher-16 checksum: the high sum in the high byte, the low sum in
/// the low byte.
pub open spec fn spec_fletcher16(data: Seq<u8>) -> int {
    spec_fletcher_sum2(data) * 256 + spec_fletcher_sum1(data)
}

/// Computes the fletcher16 checksum: two running sums modulo 255, combined as
/// high and low byte.
pub fn fletcher16(data: &[u8]) -> (r: u16)
    ensures
        r == spec_fletcher16(data@),
{
    let mut sum1: u16 = 0;
    let mut sum2: u16 = 0;

    let n = data.len();
    let mut i: usize = 0;
    while i < n
        invariant
            n == data@.len(),
            i <= n,
            sum1 == spec_fletcher_sum1(data@.take(i as int)),
            sum2 == spec_fletcher_sum2(data@.take(i as int)),
            sum1 < 255,
            sum2 < 255,
        decreases n - i,
    {
        proof {
            assert(data@.take(i + 1).drop_last() =~= data@.take(i as int));
            assert(data@.take(i + 1).last() == data@[i as int]);
        }
        sum1 = (sum1 + data[i] as u16) % 255;
        sum2 = (sum2 + sum1) % 255;
        i = i + 1;
    }
    proof {
        assert(data@.take(n as int) =~= data@);
    }

    assert((sum2 << 8) | sum1 == sum2 * 256 + sum1) by (bit_vector)
        requires
            sum1 < 255,
            sum2 < 255,
    ;
    (sum2 << 8) | sum1
}

} // verus!
