//! Length-prefixed frames: four bytes of big-endian length, then the payload.

use crate::error::LinkError;
use vstd::prelude::*;
use vstd::slice::slice_subrange;
use vstd::slice::slice_to_vec;

verus! {

/// Number of bytes in the length prefix of a frame.
pub const HEADER_LEN: usize = 4;

/// Largest payload a frame may carry: 16 MiB. A longer payload is refused when
/// writing, and a prefix that announces more is refused when reading, so that a
/// peer cannot make the reader allocate without bound.
pub const MAX_FRAME_LEN: u32 = 0x0100_0000;

/// The four bytes that stand for `n`, most significant first.
pub open spec fn be_bytes(n: u32) -> Seq<u8> {
    seq![
        (n / 0x100_0000) as u8,
        ((n / 0x1_0000) % 0x100) as u8,
        ((n / 0x100) % 0x100) as u8,
        (n % 0x100) as u8,
    ]
}

/// The number that four bytes stand for, most significant first.
pub open spec fn be_value(bytes: Seq<u8>) -> int
    recommends
        bytes.len() == 4,
{
    bytes[0] * 0x100_0000 + bytes[1] * 0x1_0000 + bytes[2] * 0x100 + bytes[3]
}

/// The frame that carries `payload`.
pub open spec fn frame(payload: Seq<u8>) -> Seq<u8>
    recommends
        payload.len() <= MAX_FRAME_LEN,
{
    be_bytes(payload.len() as u32) + payload
}

/// What reading one frame at offset `at` of a stream with the contents `stream`
/// gives, the stream being closed after its last byte: the payload and the
/// offset behind it, or the reason why no frame can be had.
pub open spec fn read_outcome(stream: Seq<u8>, at: int) -> Result<(Seq<u8>, int), LinkError> {
    if at < 0 || stream.len() - at < 4 {
        Err(LinkError::ConnectionClosed)
    } else {
        let len = be_value(stream.subrange(at, at + 4));
        if len > MAX_FRAME_LEN {
            Err(LinkError::FrameTooLarge)
        } else if stream.len() - at - 4 < len {
            Err(LinkError::ConnectionClosed)
        } else {
            Ok((stream.subrange(at + 4, at + 4 + len), at + 4 + len))
        }
    }
}

/// Every `u32` is the value of its own big-endian bytes, and the bytes are four.
#[verifier::spinoff_prover]
pub proof fn lemma_be_value_of_bytes(n: u32)
    ensures
        be_bytes(n).len() == 4,
        be_value(be_bytes(n)) == n,
{
}

/// Four bytes are the big-endian bytes of their value, which fits in a `u32`.
#[verifier::spinoff_prover]
pub proof fn lemma_be_bytes_of_value(bytes: Seq<u8>)
    requires
        bytes.len() == 4,
    ensures
        0 <= be_value(bytes) <= u32::MAX,
        be_bytes(be_value(bytes) as u32) == bytes,
{
    let b0 = bytes[0] as int;
    let b1 = bytes[1] as int;
    let b2 = bytes[2] as int;
    let b3 = bytes[3] as int;
    let v = be_value(bytes);
    assert(v == b0 * 0x100_0000 + b1 * 0x1_0000 + b2 * 0x100 + b3);
    assert(0 <= v <= u32::MAX);
    assert(v % 0x100 == b3);
    let high3 = v / 0x100;
    assert(high3 == b0 * 0x1_0000 + b1 * 0x100 + b2);
    assert(high3 % 0x100 == b2);
    let high2 = v / 0x1_0000;
    assert(high2 == b0 * 0x100 + b1);
    assert(high2 % 0x100 == b1);
    assert(v / 0x100_0000 == b0);
    let back = be_bytes(v as u32);
    assert(back[0] == bytes[0]);
    assert(back[1] == bytes[1]);
    assert(back[2] == bytes[2]);
    assert(back[3] == bytes[3]);
    assert(back =~= bytes);
}

/// A frame is four bytes longer than its payload, starts with the payload's
/// length in big-endian and goes on with the payload itself.
#[verifier::spinoff_prover]
pub proof fn lemma_frame_shape(payload: Seq<u8>)
    requires
        payload.len() <= MAX_FRAME_LEN,
    ensures
        frame(payload).len() == 4 + payload.len(),
        frame(payload).subrange(0, 4) == be_bytes(payload.len() as u32),
        be_value(frame(payload).subrange(0, 4)) == payload.len(),
        frame(payload).subrange(4, 4 + payload.len() as int) == payload,
{
    assert(frame(payload).subrange(0, 4) =~= be_bytes(payload.len() as u32));
    assert(frame(payload).subrange(4, 4 + payload.len() as int) =~= payload);
}

/// Reading where a frame was written gives back its payload and stops right
/// behind it, whatever stands before and after the frame.
#[verifier::spinoff_prover]
pub proof fn lemma_read_after_write(before: Seq<u8>, payload: Seq<u8>, after: Seq<u8>)
    requires
        payload.len() <= MAX_FRAME_LEN,
    ensures
        read_outcome(before + frame(payload) + after, before.len() as int) == Ok::<
            (Seq<u8>, int),
            LinkError,
        >((payload, (before.len() + 4 + payload.len()) as int)),
{
    let stream = before + frame(payload) + after;
    let at = before.len() as int;
    lemma_frame_shape(payload);
    assert(stream.subrange(at, at + 4) =~= be_bytes(payload.len() as u32));
    assert(stream.subrange(at + 4, at + 4 + payload.len() as int) =~= payload);
}

/// A stream that ends fewer than four bytes behind `at` gives no frame: the
/// connection counts as closed.
pub proof fn lemma_short_prefix_is_closed(stream: Seq<u8>, at: int)
    requires
        0 <= at <= stream.len(),
        stream.len() - at < 4,
    ensures
        read_outcome(stream, at) == Err::<(Seq<u8>, int), LinkError>(LinkError::ConnectionClosed),
{
}

/// The frames of `payloads`, one after the other.
pub open spec fn frames(payloads: Seq<Seq<u8>>) -> Seq<u8>
    decreases payloads.len(),
{
    if payloads.len() == 0 {
        Seq::empty()
    } else {
        frame(payloads[0]) + frames(payloads.drop_first())
    }
}

/// The payloads of the whole frames that a stream holds from offset `at` on,
/// in the order in which they stand, the stream being closed after its last
/// byte. Reading stops where no whole frame follows.
pub open spec fn payloads_from(stream: Seq<u8>, at: int) -> Seq<Seq<u8>>
    decreases stream.len() - at,
{
    match read_outcome(stream, at) {
        Ok((payload, next)) => seq![payload] + payloads_from(stream, next),
        Err(_) => Seq::empty(),
    }
}

/// Every payload is small enough for a frame.
pub open spec fn all_fit(payloads: Seq<Seq<u8>>) -> bool {
    forall|i: int| 0 <= i < payloads.len() ==> (#[trigger] payloads[i]).len() <= MAX_FRAME_LEN
}

/// Frames written one after the other are read back one by one, in the order
/// in which they were written, and nothing else is read: the wire neither
/// reorders nor merges nor splits payloads.
#[verifier::spinoff_prover]
#[verifier::rlimit(60)]
pub proof fn lemma_frames_read_back_in_order(before: Seq<u8>, payloads: Seq<Seq<u8>>)
    requires
        all_fit(payloads),
    ensures
        payloads_from(before + frames(payloads), before.len() as int) == payloads,
    decreases payloads.len(),
{
    let stream = before + frames(payloads);
    let at = before.len() as int;
    if payloads.len() == 0 {
        assert(stream =~= before);
        assert(read_outcome(stream, at) is Err);
        assert(payloads_from(stream, at) =~= payloads);
    } else {
        let first = payloads[0];
        let rest = payloads.drop_first();
        let next = at + 4 + first.len();
        assert(first.len() <= MAX_FRAME_LEN);
        assert(all_fit(rest)) by {
            assert forall|i: int| 0 <= i < rest.len() implies (#[trigger] rest[i]).len()
                <= MAX_FRAME_LEN by {
                assert(rest[i] == payloads[i + 1]);
            }
        }
        assert(read_outcome(stream, at) == Ok::<(Seq<u8>, int), LinkError>((first, next))) by {
            lemma_read_after_write(before, first, frames(rest));
            assert(stream =~= before + frame(first) + frames(rest));
        }
        assert(payloads_from(stream, next) == rest) by {
            lemma_frame_shape(first);
            lemma_frames_read_back_in_order(before + frame(first), rest);
            assert(stream =~= (before + frame(first)) + frames(rest));
            assert((before + frame(first)).len() == next);
        }
        assert(payloads_from(stream, at) == seq![first] + payloads_from(stream, next));
        assert(payloads =~= seq![first] + rest);
    }
}

/// The length prefix for a payload of `n` bytes.
#[verifier::spinoff_prover]
pub fn length_prefix(n: u32) -> (prefix: [u8; 4])
    ensures
        prefix@ == be_bytes(n),
{
    let prefix: [u8; 4] = [
        (n / 0x100_0000) as u8,
        ((n / 0x1_0000) % 0x100) as u8,
        ((n / 0x100) % 0x100) as u8,
        (n % 0x100) as u8,
    ];
    assert(prefix@ =~= be_bytes(n));
    prefix
}

/// The payload length that a length prefix announces.
#[verifier::spinoff_prover]
pub fn announced_length(prefix: &[u8; 4]) -> (n: u32)
    ensures
        n == be_value(prefix@),
{
    let b0: u32 = prefix[0] as u32;
    let b1: u32 = prefix[1] as u32;
    let b2: u32 = prefix[2] as u32;
    let b3: u32 = prefix[3] as u32;
    b0 * 0x100_0000 + b1 * 0x1_0000 + b2 * 0x100 + b3
}

/// Appends to `stream` the frame that carries `bytes`: the four-byte
/// big-endian length, then the payload. A payload above [`MAX_FRAME_LEN`] is
/// refused and leaves `stream` as it was.
#[verifier::spinoff_prover]
pub fn write_frame(stream: &mut Vec<u8>, bytes: &[u8]) -> (r: Result<(), LinkError>)
    ensures
        bytes@.len() <= MAX_FRAME_LEN ==> r == Ok::<(), LinkError>(()),
        bytes@.len() <= MAX_FRAME_LEN ==> final(stream)@ == old(stream)@ + frame(bytes@),
        bytes@.len() > MAX_FRAME_LEN ==> r == Err::<(), LinkError>(LinkError::FrameTooLarge),
        bytes@.len() > MAX_FRAME_LEN ==> final(stream)@ == old(stream)@,
        r.is_ok() ==> final(stream)@.len() == old(stream)@.len() + 4 + bytes@.len(),
        r.is_ok() ==> final(stream)@.subrange(old(stream)@.len() as int, old(stream)@.len() as int + 4)
            == be_bytes(bytes@.len() as u32),
{
    if bytes.len() > MAX_FRAME_LEN as usize {
        return Err(LinkError::FrameTooLarge);
    }
    let prefix = length_prefix(bytes.len() as u32);
    stream.extend_from_slice(prefix.as_slice());
    stream.extend_from_slice(bytes);
    proof {
        assert(stream@ =~= old(stream)@ + frame(bytes@));
        assert(stream@.subrange(old(stream)@.len() as int, old(stream)@.len() as int + 4) =~= be_bytes(
            bytes@.len() as u32,
        ));
    }
    Ok(())
}

/// Reads one frame from `stream` at offset `at`, the stream being closed after
/// its last byte. Returns the payload and the offset behind the frame.
///
/// Fails with `ConnectionClosed` where the stream ends before the whole prefix
/// or the whole payload, and with `FrameTooLarge` where the prefix announces
/// more than [`MAX_FRAME_LEN`].
#[verifier::spinoff_prover]
pub fn read_frame(stream: &[u8], at: usize) -> (r: Result<(Vec<u8>, usize), LinkError>)
    ensures
        match read_outcome(stream@, at as int) {
            Ok((payload, next)) => r.is_ok() && r->Ok_0.0@ == payload && r->Ok_0.1 == next,
            Err(e) => r == Err::<(Vec<u8>, usize), LinkError>(e),
        },
{
    if at > stream.len() || stream.len() - at < HEADER_LEN {
        return Err(LinkError::ConnectionClosed);
    }
    let head = slice_subrange(stream, at, at + HEADER_LEN);
    let prefix: [u8; 4] = [head[0], head[1], head[2], head[3]];
    assert(prefix@ =~= stream@.subrange(at as int, at + 4));
    let len = announced_length(&prefix);
    if len > MAX_FRAME_LEN {
        return Err(LinkError::FrameTooLarge);
    }
    let len = len as usize;
    if stream.len() - at - HEADER_LEN < len {
        return Err(LinkError::ConnectionClosed);
    }
    let start = at + HEADER_LEN;
    let payload = slice_to_vec(slice_subrange(stream, start, start + len));
    Ok((payload, start + len))
}

} // verus!
