use vstd::prelude::*;

verus! {

/// Denominator of the fee percentages: a percentage of 100 means 1%.
pub const FEE_DENOMINATOR: u64 = 10000;

/// Dust limit of the running fee counters. A counter that a reduction leaves
/// below this threshold is set to zero.
pub const DUST_LIMIT: u64 = 1000;

/// The value a counter holds after it was reduced to `value`: zero where
/// `value` is under the dust limit, else `value` itself.
pub open spec fn floor_dust(value: int) -> int {
    if value < DUST_LIMIT {
        0
    } else {
        value
    }
}

/// The smaller of two integers.
pub open spec fn min_int(a: int, b: int) -> int {
    if a <= b {
        a
    } else {
        b
    }
}

/// Subtracts `by` from `counter`, clamping at zero, and floors the rest to zero
/// where it is under the dust limit.
pub fn reduce_counter(counter: u64, by: u64) -> (rest: u64)
    ensures
        rest == floor_dust(counter - min_int(by as int, counter as int)),
        rest == 0 || rest >= DUST_LIMIT,
        rest <= counter,
{
    if by > counter {
        0
    } else {
        let rest: u64 = counter - by;
        if rest < DUST_LIMIT {
            0
        } else {
            rest
        }
    }
}

/// First seed of the treasury's signing authority: the bytes of `treasury`.
pub const TREASURY_TAG: [u8; 8] = [116, 114, 101, 97, 115, 117, 114, 121];

/// First seed of the fee delegate: the bytes of `delegate`.
pub const DELEGATE_TAG: [u8; 8] = [100, 101, 108, 101, 103, 97, 116, 101];

/// Copies the eight bytes of a tag.
pub fn tag_bytes(tag: &[u8; 8]) -> (bytes: Vec<u8>)
    ensures
        bytes@ == tag@,
{
    let mut bytes: Vec<u8> = Vec::new();
    let mut i: usize = 0;
    while i < 8
        invariant
            i <= 8,
            bytes@ == tag@.subrange(0, i as int),
        decreases 8 - i,
    {
        bytes.push(tag[i]);
        assert(bytes@ =~= tag@.subrange(0, i + 1));
        i += 1;
    }
    assert(bytes@ =~= tag@);
    bytes
}

} // verus!
