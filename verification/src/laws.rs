//! What holds of the two adapters over whole runs of pulls.

use vstd::prelude::*;
use crate::error::ErrorView;
use crate::streams::{
    aborted_text, adapted_all, chunk_items, chunk_pulls, content, length_mismatch, HostPullView,
    Item, Progress,
};

verus! {

/// A run has one yield for each pull, and each yield is judged from where the
/// sequence stood after the pulls before it.
pub proof fn lemma_run_index(p: Progress, inner: Seq<Item>, k: int)
    requires
        0 <= k < inner.len(),
    ensures
        p.run(inner).len() == inner.len(),
        p.run(inner)[k] == p.after_all(inner.take(k)).yields(inner[k]),
    decreases inner.len(),
{
    lemma_run_len(p, inner);
    let front = inner.drop_last();
    if k == inner.len() - 1 {
        lemma_run_len(p, front);
        assert(inner.take(k) =~= front);
    } else {
        lemma_run_index(p, front, k);
        assert(front.take(k) =~= inner.take(k));
    }
}

/// A run has one yield for each pull.
pub proof fn lemma_run_len(p: Progress, inner: Seq<Item>)
    ensures
        p.run(inner).len() == inner.len(),
    decreases inner.len(),
{
    if inner.len() > 0 {
        lemma_run_len(p, inner.drop_last());
    }
}

/// While the chunks that came in stay within the declared length, each was
/// passed on as it was, and the count is their total.
pub proof fn lemma_chunks_within(length: nat, chunks: Seq<Seq<u8>>)
    requires
        chunks.flatten().len() <= length <= u64::MAX,
    ensures
        Progress::start(length).run(chunk_items(chunks)) == chunk_items(chunks),
        Progress::start(length).after_all(chunk_items(chunks)) == (Progress {
            length,
            count: chunks.flatten().len(),
        }),
    decreases chunks.len(),
{
    let p = Progress::start(length);
    if chunks.len() == 0 {
        assert(p.run(chunk_items(chunks)) =~= chunk_items(chunks));
    } else {
        let front = chunks.drop_last();
        assert(chunks =~= front.push(chunks.last()));
        front.lemma_flatten_push(chunks.last());
        lemma_chunks_within(length, front);
        assert(chunk_items(chunks).drop_last() =~= chunk_items(front));
        assert(chunk_items(chunks).last() == Some(Ok::<Seq<u8>, ErrorView>(chunks.last())));
        assert(p.run(chunk_items(chunks)) =~= chunk_items(chunks));
    }
}

/// A sequence whose chunks sum to the declared length passes every chunk on
/// as it is, then ends, and yields no error.
pub proof fn lemma_exact_total_passes(length: nat, chunks: Seq<Seq<u8>>)
    requires
        chunks.flatten().len() == length,
        length <= u64::MAX,
    ensures
        Progress::start(length).run(chunk_items(chunks).push(None)) == chunk_items(chunks).push(
            None,
        ),
{
    lemma_chunks_within(length, chunks);
    assert(chunk_items(chunks).push(None).drop_last() =~= chunk_items(chunks));
}

/// The chunk that takes the total above the declared length is replaced by
/// one error, which names the declared length and the total with that chunk;
/// the chunks before it were passed on.
pub proof fn lemma_overflow_reported(length: nat, chunks: Seq<Seq<u8>>)
    requires
        chunks.len() > 0,
        chunks.drop_last().flatten().len() <= length <= u64::MAX,
        chunks.flatten().len() > length,
    ensures
        Progress::start(length).run(chunk_items(chunks)) == chunk_items(chunks.drop_last()).push(
            Some(Err(length_mismatch(length, chunks.flatten().len()))),
        ),
{
    let front = chunks.drop_last();
    assert(chunks =~= front.push(chunks.last()));
    front.lemma_flatten_push(chunks.last());
    lemma_chunks_within(length, front);
    assert(chunk_items(chunks).drop_last() =~= chunk_items(front));
    assert(chunk_items(chunks).last() == Some(Ok::<Seq<u8>, ErrorView>(chunks.last())));
}

/// A sequence that ends short of the declared length passes its chunks on
/// and then yields one error, which names the declared length and the total,
/// in place of the end.
pub proof fn lemma_shortfall_reported(length: nat, chunks: Seq<Seq<u8>>)
    requires
        chunks.flatten().len() < length,
        length <= u64::MAX,
    ensures
        Progress::start(length).run(chunk_items(chunks).push(None)) == chunk_items(chunks).push(
            Some(Err(length_mismatch(length, chunks.flatten().len()))),
        ),
{
    lemma_chunks_within(length, chunks);
    assert(chunk_items(chunks).push(None).drop_last() =~= chunk_items(chunks));
}

/// An error of the inner sequence is yielded as it is, wherever it comes and
/// whatever the count, and leaves the count as it was.
pub proof fn lemma_inner_error_passes(p: Progress, inner: Seq<Item>, k: int)
    requires
        0 <= k < inner.len(),
        inner[k] is Some,
        inner[k]->0 is Err,
    ensures
        p.run(inner)[k] == inner[k],
        p.after_all(inner.take(k + 1)) == p.after_all(inner.take(k)),
{
    lemma_run_index(p, inner, k);
    assert(inner.take(k + 1).drop_last() =~= inner.take(k));
}

/// A host stream that is aborted after some chunks reads as those chunks and
/// then the end: the abort is no error.
pub proof fn lemma_abort_ends(chunks: Seq<Seq<u8>>)
    ensures
        adapted_all(chunk_pulls(chunks).push(HostPullView::Raised(aborted_text())))
            == chunk_items(chunks).push(None),
{
    assert(adapted_all(chunk_pulls(chunks).push(HostPullView::Raised(aborted_text())))
        =~= chunk_items(chunks).push(None));
}

/// A host stream that raises anything but the abort reads as its chunks and
/// then one error of the host's, which carries the message raised.
pub proof fn lemma_host_error_surfaces(chunks: Seq<Seq<u8>>, message: Seq<char>)
    requires
        message != aborted_text(),
    ensures
        adapted_all(chunk_pulls(chunks).push(HostPullView::Raised(message))) == chunk_items(
            chunks,
        ).push(Some(Err(ErrorView::JsError(message)))),
{
    assert(adapted_all(chunk_pulls(chunks).push(HostPullView::Raised(message))) =~= chunk_items(
        chunks,
    ).push(Some(Err(ErrorView::JsError(message)))));
}

/// The bytes of a run of chunks are the chunks joined.
pub proof fn lemma_content_of_chunks(chunks: Seq<Seq<u8>>)
    ensures
        content(chunk_items(chunks)) == chunks.flatten(),
        content(chunk_items(chunks).push(None)) == chunks.flatten(),
    decreases chunks.len(),
{
    if chunks.len() == 0 {
        assert(chunks.flatten() =~= Seq::<u8>::empty());
    } else {
        let front = chunks.drop_last();
        assert(chunks =~= front.push(chunks.last()));
        front.lemma_flatten_push(chunks.last());
        lemma_content_of_chunks(front);
        assert(chunk_items(chunks).drop_last() =~= chunk_items(front));
    }
    assert(chunk_items(chunks).push(None).drop_last() =~= chunk_items(chunks));
    assert(content(chunk_items(chunks).push(None)) =~= content(chunk_items(chunks)));
}

/// Out through a fixed-length sequence and back in through a byte sequence:
/// where the chunks sum to the declared length and the host hands back the
/// bytes that were written to it, cut into chunks as it likes, what is read
/// is those bytes, none added and none dropped, and then the end.
pub proof fn lemma_round_trip(length: nat, chunks: Seq<Seq<u8>>, handed_back: Seq<Seq<u8>>)
    requires
        chunks.flatten().len() == length,
        length <= u64::MAX,
        handed_back.flatten() == content(
            Progress::start(length).run(chunk_items(chunks).push(None)),
        ),
    ensures
        Progress::start(length).run(chunk_items(chunks).push(None)) == chunk_items(chunks).push(
            None,
        ),
        adapted_all(chunk_pulls(handed_back).push(HostPullView::Closed)) == chunk_items(
            handed_back,
        ).push(None),
        content(adapted_all(chunk_pulls(handed_back).push(HostPullView::Closed)))
            == chunks.flatten(),
{
    lemma_exact_total_passes(length, chunks);
    lemma_content_of_chunks(chunks);
    lemma_content_of_chunks(handed_back);
    assert(adapted_all(chunk_pulls(handed_back).push(HostPullView::Closed)) =~= chunk_items(
        handed_back,
    ).push(None));
}

} // verus!
