use tiered_sync::c::rtl_gen_random::xorwow;
use tiered_sync::c::rtl_gen_random::RtlGenRandom;
use tiered_sync::c::rtl_gen_random::XorwowState;
use tiered_sync::rand::hashmap_random_keys;

#[test]
fn xorwow_step_matches_the_recurrence() {
    let mut state = XorwowState { shift: [1, 2, 3, 4], counter: 0 };
    assert_eq!(xorwow(&mut state), [227, 135, 5, 0]);
    assert_eq!(state.shift, [30, 1, 2, 3]);
    assert_eq!(state.counter, 362437);
}

#[test]
fn xorwow_wraps_shifts_and_sums() {
    let mut state = XorwowState { shift: [0xffff_ffff, 0, 0, 0xffff_ffff], counter: 0xffff_fff0 };
    assert_eq!(xorwow(&mut state), [196, 135, 5, 64]);
    assert_eq!(state.shift, [1073741839, 0xffff_ffff, 0, 0]);
    assert_eq!(state.counter, 362421);
}

#[test]
fn generator_fills_whole_words() {
    let mut buffer = vec![0xaa; 16];
    assert_eq!(RtlGenRandom(&mut buffer, 1, 2, 3, 4), 1);
    assert_eq!(buffer, vec![227, 135, 5, 0, 133, 17, 11, 0, 156, 181, 16, 0, 178, 25, 24, 0]);
}

#[test]
fn generator_cuts_the_last_word_short() {
    let mut buffer = vec![0; 11];
    assert_eq!(RtlGenRandom(&mut buffer, 0xdead_beef, 0x1234, 0x89ab_cdef, 0xffff_ffff), 1);
    assert_eq!(buffer, vec![228, 215, 123, 116, 221, 33, 91, 207, 247, 163, 97]);
    let mut buffer = vec![0; 3];
    assert_eq!(RtlGenRandom(&mut buffer, 7, 7, 7, 7), 1);
    assert_eq!(buffer, vec![66, 136, 5]);
}

#[test]
fn generator_accepts_an_empty_buffer() {
    let mut buffer: Vec<u8> = Vec::new();
    assert_eq!(RtlGenRandom(&mut buffer, 7, 7, 7, 7), 1);
    assert!(buffer.is_empty());
}

#[test]
fn generator_is_a_function_of_its_seed() {
    let mut first = vec![0; 8];
    let mut second = vec![0xff; 8];
    RtlGenRandom(&mut first, 0, 0, 0, 0);
    RtlGenRandom(&mut second, 0, 0, 0, 0);
    assert_eq!(first, vec![197, 135, 5, 0, 138, 15, 11, 0]);
    assert_eq!(first, second);
}

#[test]
fn fallback_keys_pair_time_with_ticks_and_process() {
    assert_eq!(
        hashmap_random_keys(0x1111_2222, 0x3333_4444, 0x5555_6666, 0x7777_8888),
        (0x7777_8888_1111_2222, 0x3333_4444_5555_6666)
    );
    assert_eq!(hashmap_random_keys(0, 0, 0, 0), (0, 0));
    assert_eq!(
        hashmap_random_keys(u32::MAX, u32::MAX, u32::MAX, u32::MAX),
        (u64::MAX, u64::MAX)
    );
    assert_eq!(hashmap_random_keys(5, 0, 0, 1), (0x1_0000_0005, 0));
}
