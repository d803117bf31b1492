//! The render adapter's data shuffle: turning the engine's two mono
//! sample blocks into the flat, alternating layout the output device
//! expects.

use vstd::prelude::*;

verus! {

/// The number of output channels of the device: stereo.
pub const CHANNEL_COUNT: usize = 2;

/// The number of frames the device asks for per render call; both mono
/// blocks and the interleaved buffer are sized from it.
pub const BLOCK_SIZE: usize = 64;

/// The sample rate the device and the engine are both configured with.
pub const SAMPLE_RATE: usize = 44100;

/// Interleave a left and a right sample block of equal length into one
/// fresh buffer in `[L0, R0, L1, R1, ...]` order. Every position of the
/// produced buffer is pinned to one sample of the inputs, so a caller
/// that hands the buffer to the device passes on rendered samples only.
pub fn interleave_blocks<T: Copy>(left: &Vec<T>, right: &Vec<T>) -> (out: Vec<T>)
    requires
        left@.len() == right@.len(),
    ensures
        out@.len() == 2 * left@.len(),
        forall|i: int| 0 <= i < left@.len() ==> out@[2 * i] == #[trigger] left@[i],
        forall|i: int| 0 <= i < left@.len() ==> out@[2 * i + 1] == #[trigger] right@[i],
{
    let n = left.len();
    let mut out: Vec<T> = Vec::new();
    let mut i: usize = 0;
    while i < n
        invariant
            i <= n,
            n == left@.len(),
            n == right@.len(),
            out@.len() == 2 * i,
            forall|k: int| 0 <= k < i ==> out@[2 * k] == #[trigger] left@[k],
            forall|k: int| 0 <= k < i ==> out@[2 * k + 1] == #[trigger] right@[k],
        decreases n - i,
    {
        out.push(left[i]);
        out.push(right[i]);
        i += 1;
    }
    out
}

/// The interleaving law by flat position: the even positions of the
/// produced buffer walk the left block in order, the odd positions the
/// right block.
pub proof fn lemma_interleave_positions<T>(left: Seq<T>, right: Seq<T>, out: Seq<T>)
    requires
        left.len() == right.len(),
        out.len() == 2 * left.len(),
        forall|i: int| 0 <= i < left.len() ==> out[2 * i] == #[trigger] left[i],
        forall|i: int| 0 <= i < left.len() ==> out[2 * i + 1] == #[trigger] right[i],
    ensures
        forall|j: int|
            0 <= j < out.len() ==> #[trigger] out[j] == (if j % 2 == 0 {
                left[j / 2]
            } else {
                right[j / 2]
            }),
{
    assert forall|j: int| 0 <= j < out.len() implies #[trigger] out[j] == (if j % 2 == 0 {
        left[j / 2]
    } else {
        right[j / 2]
    }) by {
        vstd::arithmetic::div_mod::lemma_fundamental_div_mod(j, 2);
        vstd::arithmetic::div_mod::lemma_mod_bound(j, 2);
        let i = j / 2;
        assert(j == 2 * i + j % 2);
        assert(0 <= i < left.len());
        if j % 2 == 0 {
            assert(j == 2 * i);
            assert(out[2 * i] == left[i]);
        } else {
            assert(j == 2 * i + 1);
            assert(out[2 * i + 1] == right[i]);
        }
    }
}

} // verus!
