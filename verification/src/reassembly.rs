//! The mathematical model of the reassembly of notification fragments into
//! messages, and what follows from it.
//!
//! The wire format carries no length. A message is taken to be complete once
//! the start of another message has been seen behind it; until then it is
//! the tail of the buffer and may still grow.

use crate::protocol::{
    classify_spec, find_header, header_at, lemma_find_header, lemma_next_start, next_start,
    response_header, starts_message, HEADER_LEN,
};
use vstd::prelude::*;

verus! {

/// The end of the span that starts at `start`: the next start of a message
/// behind `start`, or the end of `data` if there is none.
pub open spec fn span_end(data: Seq<u8>, start: int) -> int {
    match next_start(data, start + 1) {
        Some(end) => end,
        None => data.len() as int,
    }
}

/// The span is as long as a header and classifies as a response.
pub open spec fn is_response(span: Seq<u8>) -> bool {
    span.len() >= HEADER_LEN && classify_spec(span) is Response
}

/// Walks the spans of `data` from `start` on and gives the bounds of the
/// first one that is a response and has bytes behind it.
pub open spec fn first_terminated_response(data: Seq<u8>, start: int) -> Option<(int, int)>
    decreases data.len() - start,
{
    if start < 0 || start >= data.len() {
        None
    } else {
        let end = span_end(data, start);
        proof {
            lemma_next_start(data, start + 1);
        }
        if end < data.len() && is_response(data.subrange(start, end)) {
            Some((start, end))
        } else {
            first_terminated_response(data, end)
        }
    }
}

/// One step of reassembly: the buffer kept for the next step, and the
/// message that was completed, if any.
pub open spec fn reassemble(buffer: Seq<u8>, chunk: Seq<u8>) -> (Seq<u8>, Option<Seq<u8>>) {
    let combined = buffer + chunk;
    if combined.len() < HEADER_LEN + 2 {
        (combined, None)
    } else {
        match find_header(combined, 0, response_header()) {
            None => (Seq::empty(), None),
            Some(sync) => {
                let synced = combined.skip(sync);
                match first_terminated_response(synced, 0) {
                    Some((start, end)) => (synced.skip(end), Some(synced.subrange(start, end))),
                    None => (synced, None),
                }
            },
        }
    }
}

/// Behind a response header at the start of `data`, no message starts
/// before the header has ended.
proof fn lemma_no_start_inside_header(data: Seq<u8>)
    requires
        header_at(data, 0, response_header()),
    ensures
        forall|q: int| 1 <= q < HEADER_LEN ==> !starts_message(data, q),
{
}

/// Where `data` opens with the response header, the first span decides:
/// it is the completed message exactly if another message starts behind it.
pub proof fn lemma_first_span_decides(data: Seq<u8>)
    requires
        header_at(data, 0, response_header()),
    ensures
        first_terminated_response(data, 0) == match next_start(data, 1) {
            Some(end) => Some((0int, end)),
            None => None,
        },
{
    lemma_next_start(data, 1);
    lemma_no_start_inside_header(data);
    reveal_with_fuel(first_terminated_response, 2);
    match next_start(data, 1) {
        Some(end) => {
            assert(end >= HEADER_LEN);
            let span = data.subrange(0, end);
            assert(header_at(span, 0, response_header()));
        },
        None => {},
    }
}

/// A frame that holds no other start of a message, followed by the start
/// of the next message, is completed, and exactly the frame is cut off.
pub proof fn lemma_frame_then_start(frame: Seq<u8>, following: Seq<u8>)
    requires
        header_at(frame, 0, response_header()),
        next_start(frame, 1) is None,
        starts_message(following, 0),
    ensures
        first_terminated_response(frame + following, 0) == Some((0int, frame.len() as int)),
{
    let data = frame + following;
    let len = frame.len() as int;
    lemma_next_start(frame, 1);
    lemma_next_start(data, 1);
    assert(starts_message(data, len));
    assert forall|q: int| 1 <= q < len implies !starts_message(data, q) by {
        if q + HEADER_LEN <= len {
            assert(!starts_message(frame, q));
        }
    }
    lemma_first_span_decides(data);
}

/// A span that holds no start of a message behind its first byte is never
/// cut: as long as nothing follows it, it stays whole.
proof fn lemma_lone_frame_waits(frame: Seq<u8>)
    requires
        header_at(frame, 0, response_header()),
        next_start(frame, 1) is None,
    ensures
        first_terminated_response(frame, 0) is None,
{
    lemma_first_span_decides(frame);
}

/// A prefix of a span without inner starts has no inner starts either.
proof fn lemma_prefix_has_no_start(frame: Seq<u8>, upto: int)
    requires
        next_start(frame, 1) is None,
        0 <= upto <= frame.len(),
    ensures
        next_start(frame.take(upto), 1) is None,
{
    let prefix = frame.take(upto);
    lemma_next_start(frame, 1);
    lemma_next_start(prefix, 1);
    assert forall|q: int| 1 <= q implies !starts_message(prefix, q) by {
        if starts_message(prefix, q) {
            assert(starts_message(frame, q));
        }
    }
}

/// What a step hands back is made of the bytes it was given, in their
/// order. A completed message opens with the response header, the bytes
/// kept behind it open with the start of the next message, and the two
/// together are the input from its first response header on. Without a
/// completed message the input is kept whole, or from its first response
/// header on, or not at all where it holds no response header.
pub proof fn lemma_reassemble_keeps_bytes(buffer: Seq<u8>, chunk: Seq<u8>)
    ensures
        ({
            let combined = buffer + chunk;
            let (kept, complete) = reassemble(buffer, chunk);
            match complete {
                Some(message) => {
                    &&& header_at(message, 0, response_header())
                    &&& starts_message(kept, 0)
                    &&& find_header(combined, 0, response_header()) matches Some(sync)
                    &&& message + kept == combined.skip(sync)
                },
                None => {
                    ||| kept == combined
                    ||| kept.len() == 0
                    ||| (find_header(combined, 0, response_header()) matches Some(sync)
                        && kept == combined.skip(sync))
                },
            }
        }),
{
    let combined = buffer + chunk;
    if combined.len() >= HEADER_LEN + 2 {
        lemma_find_header(combined, 0, response_header());
        match find_header(combined, 0, response_header()) {
            Some(sync) => {
                let synced = combined.skip(sync);
                assert(header_at(synced, 0, response_header()));
                lemma_first_span_decides(synced);
                lemma_next_start(synced, 1);
                lemma_no_start_inside_header(synced);
                match next_start(synced, 1) {
                    Some(end) => {
                        let message = synced.subrange(0, end);
                        let kept = synced.skip(end);
                        assert(header_at(message, 0, response_header()));
                        assert(starts_message(kept, 0));
                        assert(message + kept =~= synced);
                    },
                    None => {},
                }
            },
            None => {},
        }
    }
}

/// A response frame that arrives in two fragments, cut at any offset, is
/// handed out once, whole, as soon as the start of the next message has
/// arrived behind it, and not before. The frame must hold no start of a
/// message behind its first byte.
pub proof fn lemma_split_frame_is_reassembled(frame: Seq<u8>, split: int, following: Seq<u8>)
    requires
        header_at(frame, 0, response_header()),
        next_start(frame, 1) is None,
        0 <= split <= frame.len(),
        starts_message(following, 0),
    ensures
        ({
            let first = reassemble(Seq::empty(), frame.take(split));
            let second = reassemble(first.0, frame.skip(split));
            let third = reassemble(second.0, following);
            &&& first == (frame.take(split), None::<Seq<u8>>)
            &&& second == (frame, None::<Seq<u8>>)
            &&& third == (following, Some(frame))
        }),
{
    let head = frame.take(split);
    let tail = frame.skip(split);
    assert(Seq::<u8>::empty() + head =~= head);
    if head.len() >= HEADER_LEN + 2 {
        assert(header_at(head, 0, response_header()));
        assert(head.skip(0) =~= head);
        lemma_prefix_has_no_start(frame, split);
        lemma_lone_frame_waits(head);
    }
    assert(head + tail =~= frame);
    assert(frame.skip(0) =~= frame);
    lemma_lone_frame_waits(frame);

    let both = frame + following;
    assert(header_at(both, 0, response_header()));
    assert(both.skip(0) =~= both);
    lemma_frame_then_start(frame, following);
    assert(both.skip(frame.len() as int) =~= following);
    assert(both.subrange(0, frame.len() as int) =~= frame);
}

/// Bytes in front of the first response header are dropped. With a frame
/// behind them and nothing behind the frame, the frame is kept and waits;
/// with the start of a second frame behind it, the first frame is handed
/// out and the bytes kept are the second frame from its header on. This
/// holds however the bytes were spread over the buffer and the fragment.
pub proof fn lemma_resync_after_garbage(
    garbage: Seq<u8>,
    frame: Seq<u8>,
    second: Seq<u8>,
    buffer: Seq<u8>,
    chunk: Seq<u8>,
)
    requires
        header_at(frame, 0, response_header()),
        next_start(frame, 1) is None,
        header_at(second, 0, response_header()),
        forall|q: int| 0 <= q < garbage.len() ==> !header_at(garbage + frame, q, response_header()),
    ensures
        buffer + chunk == garbage + frame && garbage.len() + frame.len() >= HEADER_LEN + 2
            ==> reassemble(buffer, chunk) == (frame, None::<Seq<u8>>),
        buffer + chunk == garbage + frame + second ==> reassemble(buffer, chunk) == (
            second,
            Some(frame),
        ),
{
    let skipped = garbage.len() as int;
    if buffer + chunk == garbage + frame && garbage.len() + frame.len() >= HEADER_LEN + 2 {
        let combined = garbage + frame;
        lemma_find_header(combined, 0, response_header());
        assert(header_at(combined, skipped, response_header()));
        assert(combined.skip(skipped) =~= frame);
        lemma_lone_frame_waits(frame);
    }
    if buffer + chunk == garbage + frame + second {
        let combined = garbage + frame + second;
        lemma_find_header(combined, 0, response_header());
        assert(header_at(combined, skipped, response_header()));
        assert forall|q: int| 0 <= q < skipped implies !header_at(
            combined,
            q,
            response_header(),
        ) by {
            assert(!header_at(garbage + frame, q, response_header()));
        }
        let synced = frame + second;
        assert(combined.skip(skipped) =~= synced);
        lemma_frame_then_start(frame, second);
        assert(synced.skip(frame.len() as int) =~= second);
        assert(synced.subrange(0, frame.len() as int) =~= frame);
    }
}

} // verus!
