//! Flat sample buffers and buffers of stereo frames.
//!
//! The audio subsystem hands over a flat buffer of interleaved samples,
//! `l0 r0 l1 r1 ..`; the engine renders into a buffer of `(left, right)`
//! frames. The two are related by [`pair_up`] and [`flatten`], which are
//! inverse to each other on buffers of even length. The conversions copy:
//! a frame buffer made by [`to_tuple_slice`] is storage of its own, and what
//! is rendered into it reaches the flat buffer by [`copy_from_tuple_slice`].
//! That is one pass over the buffer in each direction per callback, the price
//! of doing without a reinterpreting cast.
//!
//! Nothing here depends on what a sample is, so the sample type is a
//! parameter.

use vstd::prelude::*;

verus! {

/// The frames of a flat buffer: its samples two by two, left first. A last
/// sample without a partner belongs to no frame.
pub open spec fn pair_up<T>(raw: Seq<T>) -> Seq<(T, T)> {
    Seq::new((raw.len() / 2) as nat, |i: int| (raw[2 * i], raw[2 * i + 1]))
}

/// The flat buffer of a sequence of frames: frame `i` gives the samples at
/// `2 * i` (left) and `2 * i + 1` (right).
pub open spec fn flatten<T>(frames: Seq<(T, T)>) -> Seq<T> {
    Seq::new(
        2 * frames.len(),
        |k: int|
            if k % 2 == 0 {
                frames[k / 2].0
            } else {
                frames[k / 2].1
            },
    )
}

/// Converts a flat buffer of even length into its frames: half as many
/// elements, each holding two consecutive samples in their order.
///
/// A buffer of odd length cannot come from a stereo device and is not
/// accepted.
pub fn to_tuple_slice<T: Copy>(slice: &[T]) -> (frames: Vec<(T, T)>)
    requires
        slice@.len() % 2 == 0,
    ensures
        frames@ == pair_up(slice@),
        2 * frames@.len() == slice@.len(),
        forall|i: int|
            0 <= i < frames@.len() ==> #[trigger] frames@[i] == (slice@[2 * i], slice@[2 * i + 1]),
{
    let n: usize = slice.len() / 2;
    let mut frames: Vec<(T, T)> = Vec::with_capacity(n);
    let mut i: usize = 0;
    while i < n
        invariant
            2 * n == slice@.len() <= usize::MAX,
            i <= n,
            frames@.len() == i,
            forall|j: int|
                0 <= j < i ==> #[trigger] frames@[j] == (slice@[2 * j], slice@[2 * j + 1]),
        decreases n - i,
    {
        frames.push((slice[2 * i], slice[2 * i + 1]));
        i += 1;
    }
    assert(frames@ =~= pair_up(slice@));
    frames
}

/// Writes a buffer of frames over the flat buffer of twice its length: frame
/// `i` goes to the samples at `2 * i` and `2 * i + 1`, so that every sample
/// of the flat buffer is overwritten.
pub fn copy_from_tuple_slice<T: Copy>(slice: &mut [T], frames: &[(T, T)])
    requires
        old(slice)@.len() == 2 * frames@.len(),
    ensures
        final(slice)@ == flatten(frames@),
        final(slice)@.len() == old(slice)@.len(),
        pair_up(final(slice)@) == frames@,
{
    let len: usize = slice.len();
    let mut k: usize = 0;
    while k < len
        invariant
            slice@.len() == 2 * frames@.len() == len,
            k <= len,
            k % 2 == 0,
            forall|j: int| 0 <= j < k ==> #[trigger] slice@[j] == flatten(frames@)[j],
        decreases len - k,
    {
        let frame: (T, T) = frames[k / 2];
        slice[k] = frame.0;
        slice[k + 1] = frame.1;
        k += 2;
    }
    assert(slice@ =~= flatten(frames@));
    proof {
        lemma_pair_up_flatten(frames@);
    }
}

/// Flattening the frames of a flat buffer of even length gives the buffer
/// back.
pub proof fn lemma_flatten_pair_up<T>(raw: Seq<T>)
    requires
        raw.len() % 2 == 0,
    ensures
        flatten(pair_up(raw)) == raw,
{
    assert(flatten(pair_up(raw)) =~= raw);
}

/// The frames of a flattened frame buffer are the frames that were
/// flattened.
pub proof fn lemma_pair_up_flatten<T>(frames: Seq<(T, T)>)
    ensures
        pair_up(flatten(frames)) == frames,
{
    assert(pair_up(flatten(frames)) =~= frames);
}

/// A flat buffer of even length `n` has exactly `n / 2` frames, and a frame
/// written at index `i` is seen in the flat buffer as the samples at `2 * i`
/// and `2 * i + 1`, all other samples staying as they were.
pub proof fn lemma_frame_write_shows_in_samples<T>(raw: Seq<T>, i: int, left: T, right: T)
    requires
        raw.len() % 2 == 0,
        0 <= i < raw.len() / 2,
    ensures
        pair_up(raw).len() == raw.len() / 2,
        flatten(pair_up(raw).update(i, (left, right))) == raw.update(2 * i, left).update(
            2 * i + 1,
            right,
        ),
{
    assert(flatten(pair_up(raw).update(i, (left, right))) =~= raw.update(2 * i, left).update(
        2 * i + 1,
        right,
    ));
}

/// A sample written into a flat buffer of even length at index `k` is seen
/// in frame `k / 2`, on the left for an even `k` and on the right for an odd
/// one, all other frames staying as they were.
pub proof fn lemma_sample_write_shows_in_frame<T>(raw: Seq<T>, k: int, sample: T)
    requires
        raw.len() % 2 == 0,
        0 <= k < raw.len(),
    ensures
        pair_up(raw.update(k, sample)) == pair_up(raw).update(
            k / 2,
            if k % 2 == 0 {
                (sample, raw[k + 1])
            } else {
                (raw[k - 1], sample)
            },
        ),
{
    assert(pair_up(raw.update(k, sample)) =~= pair_up(raw).update(
        k / 2,
        if k % 2 == 0 {
            (sample, raw[k + 1])
        } else {
            (raw[k - 1], sample)
        },
    ));
}

/// Frames that all hold the same sample on both sides flatten to a buffer
/// that holds that sample everywhere: silence rendered is silence played.
pub proof fn lemma_uniform_frames_flatten_uniform<T>(frames: Seq<(T, T)>, sample: T)
    requires
        forall|i: int| 0 <= i < frames.len() ==> #[trigger] frames[i] == (sample, sample),
    ensures
        flatten(frames).len() == 2 * frames.len(),
        forall|k: int| 0 <= k < flatten(frames).len() ==> #[trigger] flatten(frames)[k] == sample,
{
    assert forall|k: int| 0 <= k < flatten(frames).len() implies #[trigger] flatten(frames)[k]
        == sample by {
        assert(frames[k / 2] == (sample, sample));
    }
}

} // verus!
