//! The fallback random generator: a xorwow sequence seeded from the clock
//! and the process.

use vstd::prelude::*;

verus! {

/// The state of a xorwow generator.
pub struct XorwowState {
    pub shift: [u32; 4],
    pub counter: u32,
}

/// What the counter advances by at every step.
pub const XORWOW_STEP: u32 = 362437;

impl XorwowState {
    /// The word that a step puts in front of the shift register.
    pub open spec fn mixed(self) -> u32 {
        let t = self.shift[3];
        let s = self.shift[0];
        let t = t ^ t.wrapping_shr(2);
        let t = t ^ t.wrapping_shl(1);
        t ^ (s ^ s.wrapping_shl(4))
    }

    /// The state after one step: the register shifted by one word behind the
    /// mixed word, the counter advanced.
    pub open spec fn next(self) -> XorwowState {
        XorwowState {
            shift: [self.mixed(), self.shift[0], self.shift[1], self.shift[2]],
            counter: self.counter.wrapping_add(XORWOW_STEP),
        }
    }

    /// The word that one step puts out.
    pub open spec fn output(self) -> u32 {
        self.mixed().wrapping_add(self.counter.wrapping_add(XORWOW_STEP))
    }
}

/// The four bytes of a word, lowest first.
pub open spec fn le_bytes(word: u32) -> Seq<u8> {
    seq![
        (word & 0xff) as u8,
        ((word >> 8) & 0xff) as u8,
        ((word >> 16) & 0xff) as u8,
        ((word >> 24) & 0xff) as u8,
    ]
}

/// The first `len` bytes that a generator in `state` puts out.
pub open spec fn stream(state: XorwowState, len: nat) -> Seq<u8>
    decreases len,
{
    if len == 0 {
        Seq::empty()
    } else if len < 4 {
        le_bytes(state.output()).take(len as int)
    } else {
        le_bytes(state.output()) + stream(state.next(), (len - 4) as nat)
    }
}

/// Steps the generator once and returns the bytes of its output word.
pub fn xorwow(state: &mut XorwowState) -> (bytes: [u8; 4])
    ensures
        *final(state) == old(state).next(),
        bytes@ == le_bytes(old(state).output()),
{
    let mut t = state.shift[3];
    let s = state.shift[0];
    let shift = [t, s, state.shift[1], state.shift[2]];
    t = t ^ t.wrapping_shr(2);
    t = t ^ t.wrapping_shl(1);
    t = t ^ (s ^ s.wrapping_shl(4));
    state.shift = [t, s, shift[2], shift[3]];
    state.counter = state.counter.wrapping_add(XORWOW_STEP);
    let word = t.wrapping_add(state.counter);
    [
        (word & 0xff) as u8,
        ((word >> 8) & 0xff) as u8,
        ((word >> 16) & 0xff) as u8,
        ((word >> 24) & 0xff) as u8,
    ]
}

/// The state that the generator starts from: the tick count, the process
/// id and the two halves of the system time, with the counter at zero.
pub open spec fn seeded(
    tick_count: u32,
    process_id: u32,
    file_time_low: u32,
    file_time_high: u32,
) -> XorwowState {
    XorwowState { shift: [tick_count, process_id, file_time_low, file_time_high], counter: 0 }
}

/// A stream is the bytes of its first word followed by the stream of the
/// state after it.
proof fn lemma_stream_unfold(state: XorwowState, len: nat)
    requires
        len >= 4,
    ensures
        stream(state, len) == le_bytes(state.output()) + stream(state.next(), (len - 4) as nat),
        le_bytes(state.output()).len() == 4,
{
}

/// Fills `random_buffer` with the output of a generator seeded from the
/// given readings of the clock and the process, word by word, a last word cut
/// short where the length is no multiple of four. Never fails: the answer is
/// always 1.
#[allow(non_snake_case)]
pub fn RtlGenRandom(
    random_buffer: &mut Vec<u8>,
    tick_count: u32,
    process_id: u32,
    file_time_low: u32,
    file_time_high: u32,
) -> (filled: u8)
    ensures
        filled == 1,
        final(random_buffer)@ == stream(
            seeded(tick_count, process_id, file_time_low, file_time_high),
            old(random_buffer)@.len(),
        ),
{
    let mut state = XorwowState {
        shift: [tick_count, process_id, file_time_low, file_time_high],
        counter: 0,
    };
    let ghost start = state;
    let len = random_buffer.len();
    let mut offset: usize = 0;
    while len - offset >= 4
        invariant
            offset <= len,
            random_buffer@.len() == len,
            random_buffer@.take(offset as int) + stream(state, (len - offset) as nat) == stream(
                start,
                len as nat,
            ),
        decreases len - offset,
    {
        let ghost before = random_buffer@;
        let ghost entered = state;
        let word = xorwow(&mut state);
        random_buffer.set(offset, word[0]);
        random_buffer.set(offset + 1, word[1]);
        random_buffer.set(offset + 2, word[2]);
        random_buffer.set(offset + 3, word[3]);
        proof {
            lemma_stream_unfold(entered, (len - offset) as nat);
            assert(random_buffer@.take(offset + 4) =~= before.take(offset as int) + le_bytes(
                entered.output(),
            ));
            assert(random_buffer@.take(offset + 4) + stream(state, (len - offset - 4) as nat)
                =~= before.take(offset as int) + (le_bytes(entered.output()) + stream(
                state,
                (len - offset - 4) as nat,
            )));
        }
        offset = offset + 4;
    }
    let rest = len - offset;
    if rest > 0 {
        let ghost before = random_buffer@;
        let ghost entered = state;
        let word = xorwow(&mut state);
        let mut i: usize = 0;
        while i < rest
            invariant
                i <= rest,
                rest == len - offset,
                rest < 4,
                word@ == le_bytes(entered.output()),
                random_buffer@.len() == len,
                before.len() == len,
                random_buffer@.take(offset + i) =~= before.take(offset as int) + word@.take(
                    i as int,
                ),
            decreases rest - i,
        {
            let ghost shorter = random_buffer@;
            random_buffer.set(offset + i, word[i]);
            proof {
                assert(random_buffer@.take(offset + i + 1) =~= shorter.take(offset + i).push(
                    word@[i as int],
                ));
                assert(word@.take(i + 1) =~= word@.take(i as int).push(word@[i as int]));
            }
            i = i + 1;
        }
        proof {
            assert(random_buffer@.take(len as int) == random_buffer@);
        }
    } else {
        proof {
            assert(random_buffer@.take(len as int) == random_buffer@);
            assert(random_buffer@ + Seq::<u8>::empty() == random_buffer@);
        }
    }
    1
}

} // verus!
