//! Keys for hash maps on systems without a random generator of their own.

use vstd::prelude::*;

verus! {

/// Two 64-bit keys put together from the tick count, the process id and the
/// system time: the high half of the time above the tick count, and the
/// process id above the low half of the time.
///
/// This is what is left where the system offers no random generator. Where
/// it offers one, the keys are its output and this function is not called.
pub fn hashmap_random_keys(
    tick_count: u32,
    process_id: u32,
    file_time_low: u32,
    file_time_high: u32,
) -> (keys: (u64, u64))
    ensures
        keys.0 == file_time_high * 0x1_0000_0000 + tick_count,
        keys.1 == process_id * 0x1_0000_0000 + file_time_low,
{
    let first = (file_time_high as u64) << 32 | tick_count as u64;
    let second = (process_id as u64) << 32 | file_time_low as u64;
    proof {
        lemma_halves(file_time_high, tick_count);
        lemma_halves(process_id, file_time_low);
    }
    (first, second)
}

/// A word shifted above another is their sum with the first scaled.
proof fn lemma_halves(high: u32, low: u32)
    ensures
        ((high as u64) << 32 | low as u64) == high * 0x1_0000_0000 + low,
{
    let h = high as u64;
    let l = low as u64;
    assert((h << 32 | l) == h * 0x1_0000_0000 + l) by (bit_vector)
        requires
            h < 0x1_0000_0000,
            l < 0x1_0000_0000,
    ;
}

} // verus!
