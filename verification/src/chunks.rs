//! The byte-level model of a streamed body: a sequence of chunks and the
//! bytes their in-order concatenation yields.

use vstd::prelude::*;

verus! {

/// The bytes obtained by appending the chunks one after another, in order.
pub open spec fn concat_chunks(chunks: Seq<Seq<u8>>) -> Seq<u8>
    decreases chunks.len(),
{
    if chunks.len() == 0 {
        Seq::<u8>::empty()
    } else {
        concat_chunks(chunks.drop_last()) + chunks.last()
    }
}

/// The total number of bytes held across all chunks.
pub open spec fn total_len(chunks: Seq<Seq<u8>>) -> nat
    decreases chunks.len(),
{
    if chunks.len() == 0 {
        0
    } else {
        total_len(chunks.drop_last()) + chunks.last().len()
    }
}

/// The concatenation is exactly as long as the chunks are together.
pub proof fn lemma_concat_chunks_len(chunks: Seq<Seq<u8>>)
    ensures
        concat_chunks(chunks).len() == total_len(chunks),
    decreases chunks.len(),
{
    if chunks.len() > 0 {
        lemma_concat_chunks_len(chunks.drop_last());
    }
}

/// Receiving one more chunk extends the concatenation by that chunk's bytes.
pub proof fn lemma_concat_chunks_push(chunks: Seq<Seq<u8>>, c: Seq<u8>)
    ensures
        concat_chunks(chunks.push(c)) == concat_chunks(chunks) + c,
{
    assert(chunks.push(c).drop_last() =~= chunks);
    assert(chunks.push(c).last() == c);
}

} // verus!
