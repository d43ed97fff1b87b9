//! The body stream as the consumer sees it: the frames that the pulls give,
//! one signal each, and what is counted of them.

use crate::consumer::Signal;
use vstd::prelude::*;

verus! {

/// Everything a consumer is told over one request whose body stream yields
/// `frames` and then ends: the invocation, the frames, the end of the stream.
pub open spec fn session(frames: Seq<Signal>) -> Seq<Signal> {
    seq![Signal::Invoked] + frames + seq![Signal::EndOfStream]
}

/// The number of frames before the first one that is not a chunk.
pub open spec fn leading_chunks(frames: Seq<Signal>) -> nat
    decreases frames.len(),
{
    if frames.len() == 0 || !(frames[0] is Chunk) {
        0
    } else {
        1 + leading_chunks(frames.drop_first())
    }
}

/// The bytes in the chunks that come before the first frame that is not a chunk.
pub open spec fn leading_bytes(frames: Seq<Signal>) -> nat
    decreases frames.len(),
{
    if frames.len() == 0 || !(frames[0] is Chunk) {
        0
    } else {
        frames[0]->Chunk_0.len() + leading_bytes(frames.drop_first())
    }
}

/// Where the first `k` frames are chunks, the leading chunks of the whole are
/// those `k` and the leading chunks of what follows them.
pub proof fn lemma_leading_split(frames: Seq<Signal>, k: int)
    requires
        0 <= k <= frames.len(),
        forall|j: int| 0 <= j < k ==> frames[j] is Chunk,
    ensures
        leading_chunks(frames.take(k)) == k,
        leading_chunks(frames) == k + leading_chunks(frames.skip(k)),
        leading_bytes(frames) == leading_bytes(frames.take(k)) + leading_bytes(frames.skip(k)),
    decreases k,
{
    if k == 0 {
        assert(frames.skip(0) =~= frames);
        assert(frames.take(0) =~= Seq::<Signal>::empty());
    } else {
        let rest = frames.drop_first();
        lemma_leading_split(rest, k - 1);
        assert(frames.take(k).drop_first() =~= rest.take(k - 1));
        assert(frames.skip(k) =~= rest.skip(k - 1));
    }
}

/// The chunks of a body as the signals of pulls that all succeed.
pub open spec fn chunk_signals(chunks: Seq<Seq<u8>>) -> Seq<Signal> {
    chunks.map_values(|bytes: Seq<u8>| Signal::Chunk(bytes))
}

/// The sum of the lengths of the chunks.
pub open spec fn sum_of_lengths(chunks: Seq<Seq<u8>>) -> nat
    decreases chunks.len(),
{
    if chunks.len() == 0 {
        0
    } else {
        sum_of_lengths(chunks.drop_last()) + chunks.last().len()
    }
}

} // verus!
