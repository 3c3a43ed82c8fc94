//! Consistent Overhead Byte Stuffing for payloads of fewer than 254 bytes:
//! what the stuffed form of a payload is, and that it holds no zero byte and
//! gives the payload back.

use vstd::prelude::*;

verus! {

/// How many non-zero bytes `data` holds from index `from` up to the next zero
/// byte, or up to the end where no zero follows.
pub open spec fn run_length(data: Seq<u8>, from: int) -> int
    decreases data.len() - from,
{
    if 0 <= from < data.len() && data[from] != 0 {
        1 + run_length(data, from + 1)
    } else {
        0
    }
}

/// The stuffed form of a payload of fewer than 254 bytes. It is one byte
/// longer than the payload. Byte 0 is a code. Byte `at > 0` stands for payload
/// byte `at - 1`: where that byte is zero it is a code, otherwise it is that
/// byte. A code is one more than the number of non-zero payload bytes that
/// follow it before the next zero or the end.
pub open spec fn stuffed(data: Seq<u8>) -> Seq<u8> {
    Seq::new(
        data.len() + 1,
        |at: int|
            if at == 0 || data[at - 1] == 0 {
                (run_length(data, at) + 1) as u8
            } else {
                data[at - 1]
            },
    )
}

/// What a receiver reads out of `frame` from the code byte at `code_at` on:
/// the bytes that the code spans, a zero where another code follows, and then
/// what it reads from that code on.
pub open spec fn unstuffed_from(frame: Seq<u8>, code_at: int) -> Seq<u8>
    decreases frame.len() - code_at,
{
    if code_at < 0 || code_at >= frame.len() || frame[code_at] == 0 {
        Seq::empty()
    } else {
        let next = code_at + frame[code_at];
        if next >= frame.len() {
            frame.subrange(code_at + 1, frame.len() as int)
        } else {
            frame.subrange(code_at + 1, next).push(0) + unstuffed_from(frame, next)
        }
    }
}

/// The payload that a receiver reads out of a stuffed frame.
pub open spec fn unstuffed(frame: Seq<u8>) -> Seq<u8> {
    unstuffed_from(frame, 0)
}

/// A run stays inside the payload, consists of non-zero bytes, and ends at a
/// zero byte or at the end of the payload.
pub proof fn lemma_run_length(data: Seq<u8>, from: int)
    requires
        0 <= from <= data.len(),
    ensures
        0 <= run_length(data, from) <= data.len() - from,
        forall|k: int| from <= k < from + run_length(data, from) ==> data[k] != 0,
        from + run_length(data, from) == data.len() || data[from + run_length(data, from)] == 0,
    decreases data.len() - from,
{
    if from < data.len() && data[from] != 0 {
        lemma_run_length(data, from + 1);
    }
}

/// The stuffed form of a short payload holds no zero byte, so a zero byte can
/// mark where a frame ends.
pub proof fn lemma_stuffed_has_no_zero(data: Seq<u8>)
    requires
        data.len() < 254,
    ensures
        stuffed(data).len() == data.len() + 1,
        forall|at: int| 0 <= at < stuffed(data).len() ==> stuffed(data)[at] != 0,
{
    assert forall|at: int| 0 <= at < stuffed(data).len() implies stuffed(data)[at] != 0 by {
        lemma_run_length(data, at);
    }
}

proof fn lemma_unstuffed_from(data: Seq<u8>, code_at: int)
    requires
        data.len() < 254,
        0 <= code_at <= data.len(),
        code_at == 0 || data[code_at - 1] == 0,
    ensures
        unstuffed_from(stuffed(data), code_at) == data.subrange(code_at, data.len() as int),
    decreases data.len() - code_at,
{
    let frame = stuffed(data);
    let run = run_length(data, code_at);
    lemma_run_length(data, code_at);
    assert(frame[code_at] == run + 1);
    let next = code_at + run + 1;
    if next >= frame.len() {
        assert(frame.subrange(code_at + 1, frame.len() as int) =~= data.subrange(
            code_at,
            data.len() as int,
        ));
    } else {
        lemma_unstuffed_from(data, next);
        assert(frame.subrange(code_at + 1, next).push(0) =~= data.subrange(code_at, next));
        assert(data.subrange(code_at, next) + data.subrange(next, data.len() as int)
            =~= data.subrange(code_at, data.len() as int));
    }
}

/// Unstuffing the stuffed form of a short payload gives the payload back.
pub proof fn lemma_unstuffed_inverts_stuffed(data: Seq<u8>)
    requires
        data.len() < 254,
    ensures
        unstuffed(stuffed(data)) == data,
{
    lemma_unstuffed_from(data, 0);
    assert(data.subrange(0, data.len() as int) =~= data);
}

} // verus!
