//! Facts about the frame decoder over the whole input stream.
//!
//! `V1MessageDecoder::decode_chunk` turns the bytes taken so far, `r`, and an
//! offered chunk `c` into `frame_prefix(expected, r + c)`. What `end` returns
//! is a function of those bytes alone: a header error, `IncompleteMessage`,
//! `InvalidChecksum`, or what the codec reads from them. So two decoders that
//! took the same bytes end alike, and the lemmas here, stated over that step,
//! say which bytes are taken.
use crate::frame::{
    frame_limit, frame_prefix, header_rejected, is_header_error, length_field,
    magic_field, HEADER_LEN, MAX_PAYLOAD_LEN,
};
use crate::error::DecodeError;
use crate::frame::{command_field, command_is_token};
use vstd::prelude::*;

verus! {

/// The bytes a fresh decoder has taken after being offered `chunks` one
/// after another, each from its start; it stops at a rejected header.
pub open spec fn feed_all(expected: Seq<u8>, r: Seq<u8>, chunks: Seq<Seq<u8>>) -> Seq<u8>
    decreases chunks.len(),
{
    if chunks.len() == 0 || header_rejected(expected, r) {
        r
    } else {
        feed_all(expected, frame_prefix(expected, r + chunks[0]), chunks.drop_first())
    }
}

/// Which frame a stream starts with is decided by its first 24 bytes.
proof fn lemma_limit_extends(expected: Seq<u8>, s: Seq<u8>, t: Seq<u8>)
    requires
        s.len() >= HEADER_LEN,
    ensures
        (s + t).subrange(0, HEADER_LEN as int) == s.subrange(0, HEADER_LEN as int),
        frame_limit(expected, s + t) == frame_limit(expected, s),
        header_rejected(expected, s + t) == header_rejected(expected, s),
{
    assert((s + t).subrange(0, HEADER_LEN as int) =~= s.subrange(0, HEADER_LEN as int));
}

/// Offering bytes in two chunks leaves the decoder with the same bytes taken,
/// and the same header verdict, as offering them in one.
pub proof fn lemma_feed_split(expected: Seq<u8>, s: Seq<u8>, b: Seq<u8>)
    ensures
        frame_prefix(expected, frame_prefix(expected, s) + b) == frame_prefix(expected, s + b),
        header_rejected(expected, frame_prefix(expected, s) + b) == header_rejected(
            expected,
            s + b,
        ),
{
    let p = frame_prefix(expected, s);
    if s.len() >= HEADER_LEN {
        lemma_limit_extends(expected, s, b);
        let limit = frame_limit(expected, s);
        assert(limit >= HEADER_LEN);
        if s.len() >= limit {
            assert(p == s.subrange(0, limit));
            assert(p.subrange(0, HEADER_LEN as int) =~= s.subrange(0, HEADER_LEN as int));
            lemma_limit_extends(expected, p, b);
            assert(frame_limit(expected, p) == limit);
            assert((p + b).subrange(0, limit) =~= (s + b).subrange(0, limit));
        } else {
            assert(p =~= s);
        }
    } else {
        assert(p =~= s);
    }
}

/// Whatever way a stream is cut into chunks (one chunk, equal chunks, one
/// byte at a time), the decoder ends up with the same bytes taken as when the
/// whole stream is offered at once.
pub proof fn lemma_chunking_invariant(expected: Seq<u8>, r: Seq<u8>, chunks: Seq<Seq<u8>>)
    requires
        r == frame_prefix(expected, r),
    ensures
        feed_all(expected, r, chunks) == frame_prefix(expected, r + chunks.flatten()),
    decreases chunks.len(),
{
    if chunks.len() == 0 {
        assert(chunks.flatten() == Seq::<u8>::empty());
        assert(r + chunks.flatten() =~= r);
        assert(frame_prefix(expected, r) == r);
    } else if header_rejected(expected, r) {
        let t = chunks.flatten();
        lemma_limit_extends(expected, r, t);
        assert(r.len() == HEADER_LEN);
        assert((r + t).subrange(0, HEADER_LEN as int) =~= r);
    } else {
        let next = frame_prefix(expected, r + chunks[0]);
        assert(frame_prefix(expected, next) == next) by {
            lemma_feed_split(expected, r + chunks[0], Seq::<u8>::empty());
            assert(next + Seq::<u8>::empty() =~= next);
            assert(r + chunks[0] + Seq::<u8>::empty() =~= r + chunks[0]);
        }
        lemma_chunking_invariant(expected, next, chunks.drop_first());
        lemma_feed_split(expected, r + chunks[0], chunks.drop_first().flatten());
        assert(chunks.flatten() =~= chunks[0] + chunks.drop_first().flatten());
        assert(r + chunks[0] + chunks.drop_first().flatten() =~= r + chunks.flatten());
    }
}

/// A header whose magic differs from the configured one is rejected as soon
/// as its 24 bytes are in, whatever payload length it declares and whatever
/// follows it: no payload byte is taken. With a valid command the error is
/// `WrongMagic`, naming both values.
pub proof fn lemma_wrong_magic_rejected(expected: [u8; 4], s: Seq<u8>, e: DecodeError)
    requires
        s.len() >= HEADER_LEN,
        magic_field(s.subrange(0, HEADER_LEN as int)) != expected@,
    ensures
        header_rejected(expected@, s),
        frame_prefix(expected@, s) == s.subrange(0, HEADER_LEN as int),
        is_header_error(expected, s.subrange(0, HEADER_LEN as int), e) && command_is_token(
            command_field(s.subrange(0, HEADER_LEN as int)),
        ) ==> (e matches DecodeError::WrongMagic { expected: x, actual } && x == expected
            && actual@ == magic_field(s.subrange(0, HEADER_LEN as int))),
{
}

/// A header that declares more than 32 MiB of payload is rejected as soon as
/// its 24 bytes are in: no payload byte is taken. When command and magic are
/// valid the error is `PayloadTooLarge` with the declared length.
pub proof fn lemma_oversized_rejected(expected: [u8; 4], s: Seq<u8>, e: DecodeError)
    requires
        s.len() >= HEADER_LEN,
        length_field(s.subrange(0, HEADER_LEN as int)) > MAX_PAYLOAD_LEN,
    ensures
        header_rejected(expected@, s),
        frame_prefix(expected@, s) == s.subrange(0, HEADER_LEN as int),
        is_header_error(expected, s.subrange(0, HEADER_LEN as int), e) && command_is_token(
            command_field(s.subrange(0, HEADER_LEN as int)),
        )
            && magic_field(s.subrange(0, HEADER_LEN as int)) == expected@ ==> e
            == DecodeError::PayloadTooLarge(length_field(s.subrange(0, HEADER_LEN as int)) as usize),
{
}

/// Of a complete frame `f` with an accepted header, any proper prefix leaves
/// the decoder short of the frame and not failed, so ending there gives
/// `IncompleteMessage`; offering the rest of `f` afterwards completes the
/// same frame as offering `f` at once.
pub proof fn lemma_prefix_then_rest(expected: Seq<u8>, f: Seq<u8>, k: int)
    requires
        f.len() == frame_limit(expected, f),
        !header_rejected(expected, f),
        0 <= k < f.len(),
    ensures
        ({
            let q = f.subrange(0, k);
            &&& frame_prefix(expected, q) == q
            &&& q.len() < frame_limit(expected, q)
            &&& !header_rejected(expected, q)
            &&& frame_prefix(expected, q + f.subrange(k, f.len() as int)) == f
        }),
{
    let q = f.subrange(0, k);
    assert(q + f.subrange(k, f.len() as int) =~= f);
    assert(f.subrange(0, f.len() as int) =~= f);
    if k >= HEADER_LEN {
        assert(q.subrange(0, HEADER_LEN as int) =~= f.subrange(0, HEADER_LEN as int));
    }
    assert(q.subrange(0, q.len() as int) =~= q);
}

} // verus!
