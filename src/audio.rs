//! The playback side of audio: one received chunk per device buffer.

use vstd::prelude::*;

verus! {

/// What the device plays at position `i`: the chunk's sample while it
/// lasts, silence after it or when no chunk came.
pub open spec fn played<T>(chunk: Option<Seq<T>>, silence: T, i: int) -> T {
    match chunk {
        Some(c) => if i < c.len() {
            c[i]
        } else {
            silence
        },
        None => silence,
    }
}

/// Fills a device buffer from at most one chunk; no mixing.
pub fn fill_playback<T: Copy>(out: &mut [T], chunk: Option<&[T]>, silence: T)
    ensures
        final(out)@.len() == old(out)@.len(),
        forall|i: int|
            0 <= i < final(out)@.len() ==> final(out)@[i] == played(
                match chunk {
                    Some(c) => Some(c@),
                    None => None,
                },
                silence,
                i,
            ),
{
    let ghost want = match chunk {
        Some(c) => Some(c@),
        None => None,
    };
    let n = out.len();
    let mut i: usize = 0;
    while i < n
        invariant
            i <= n,
            n == out@.len(),
            out@.len() == old(out)@.len(),
            want == match chunk {
                Some(c) => Some(c@),
                None => None::<Seq<T>>,
            },
            forall|j: int| 0 <= j < i ==> out@[j] == played(want, silence, j),
        decreases n - i,
    {
        let v = match chunk {
            Some(c) => if i < c.len() {
                c[i]
            } else {
                silence
            },
            None => silence,
        };
        out[i] = v;
        i = i + 1;
    }
}

} // verus!
