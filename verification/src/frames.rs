//! Batching of a sample stream into fixed-size frames.

use vstd::prelude::*;

verus! {

/// Frame `i` of the complete frames at the front of `s`.
pub open spec fn frame_at<T>(s: Seq<T>, n: nat, i: int) -> Seq<T> {
    s.subrange(i * n, i * n + n)
}

/// Remove every complete frame of `chunk_size` samples from the front of
/// `buffer` and return them in order; a partial frame stays buffered.
pub fn drain_frames<T>(buffer: &mut Vec<T>, chunk_size: usize) -> (frames: Vec<Vec<T>>)
    requires
        chunk_size > 0,
    ensures
        frames@.len() == old(buffer)@.len() / (chunk_size as nat),
        forall|i: int|
            0 <= i < frames@.len() ==> #[trigger] frames@[i]@ == frame_at(
                old(buffer)@,
                chunk_size as nat,
                i,
            ),
        final(buffer)@ == old(buffer)@.skip((frames@.len() * chunk_size) as int),
        final(buffer)@.len() < chunk_size,
{
    let ghost orig = buffer@;
    let ghost n = chunk_size as nat;
    let mut frames: Vec<Vec<T>> = Vec::new();
    proof {
        assert(0 * n == 0);
        assert(orig.skip(0) =~= orig);
    }
    while buffer.len() >= chunk_size
        invariant
            chunk_size > 0,
            n == chunk_size,
            frames@.len() * n <= orig.len(),
            buffer@ == orig.skip((frames@.len() * n) as int),
            forall|i: int|
                0 <= i < frames@.len() ==> #[trigger] frames@[i]@ == frame_at(orig, n, i),
        decreases buffer@.len(),
    {
        let ghost k = frames@.len();
        let mut rest = buffer.split_off(chunk_size);
        std::mem::swap(buffer, &mut rest);
        proof {
            assert(k * n + n == (k + 1) * n) by (nonlinear_arith);
            assert(rest@ =~= frame_at(orig, n, k as int));
            assert(buffer@ =~= orig.skip(((k + 1) * n) as int));
        }
        frames.push(rest);
    }
    proof {
        let k = frames@.len();
        assert(orig.len() - k * n < n);
        assert(k == orig.len() / n) by (nonlinear_arith)
            requires
                k * n <= orig.len(),
                orig.len() - k * n < n,
                n > 0,
        ;
    }
    frames
}

} // verus!
