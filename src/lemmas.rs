//! Facts about sequences of calls on a packet buffer, proved from the
//! contracts of the single calls.

use vstd::prelude::*;

use crate::packet::{
    big_endian_u16, get_post, read_post, read_u16_post, PacketBuffer, PACKET_BYTES_LENGTH,
};

verus! {

proof fn lemma_read_sweep_prefix(
    states: Seq<PacketBuffer>,
    results: Seq<Result<u8, String>>,
    k: int,
)
    requires
        states.len() == PACKET_BYTES_LENGTH + 1,
        results.len() == PACKET_BYTES_LENGTH,
        states[0].cursor() == 0,
        forall|i: int|
            0 <= i < PACKET_BYTES_LENGTH ==> #[trigger] read_post(
                states[i],
                states[i + 1],
                results[i],
            ),
        0 <= k <= PACKET_BYTES_LENGTH,
    ensures
        states[k].cursor() == k,
        states[k].bytes() == states[0].bytes(),
    decreases k,
{
    if k > 0 {
        let j = k - 1;
        lemma_read_sweep_prefix(states, results, j);
        assert(read_post(states[j], states[j + 1], results[j]));
    }
}

/// Reading a buffer from its start once per byte, each call starting where the
/// previous one left off, returns every byte in order and leaves the position
/// at the capacity.
pub proof fn lemma_read_sweep(states: Seq<PacketBuffer>, results: Seq<Result<u8, String>>)
    requires
        states.len() == PACKET_BYTES_LENGTH + 1,
        results.len() == PACKET_BYTES_LENGTH,
        states[0].cursor() == 0,
        forall|i: int|
            0 <= i < PACKET_BYTES_LENGTH ==> #[trigger] read_post(
                states[i],
                states[i + 1],
                results[i],
            ),
    ensures
        forall|i: int|
            0 <= i < PACKET_BYTES_LENGTH ==> #[trigger] results[i] == Ok::<u8, String>(
                states[0].bytes()[i],
            ),
        states[PACKET_BYTES_LENGTH as int].cursor() == PACKET_BYTES_LENGTH,
        states[PACKET_BYTES_LENGTH as int].bytes() == states[0].bytes(),
{
    assert forall|i: int| 0 <= i < PACKET_BYTES_LENGTH implies #[trigger] results[i] == Ok::<
        u8,
        String,
    >(states[0].bytes()[i]) by {
        lemma_read_sweep_prefix(states, results, i);
        assert(read_post(states[i], states[i + 1], results[i]));
    }
    lemma_read_sweep_prefix(states, results, PACKET_BYTES_LENGTH as int);
}

/// `get` returns the byte that a `read` from the same state returns, and both
/// fail on the same states.
pub proof fn lemma_get_agrees_with_read(
    b: PacketBuffer,
    g: Result<u8, String>,
    after: PacketBuffer,
    r: Result<u8, String>,
)
    requires
        get_post(b, g),
        read_post(b, after, r),
    ensures
        g is Ok ==> r == g,
        g is Err <==> r is Err,
{
}

/// Two `get` calls on the same state return the same outcome.
pub proof fn lemma_get_idempotent(b: PacketBuffer, g1: Result<u8, String>, g2: Result<u8, String>)
    requires
        get_post(b, g1),
        get_post(b, g2),
    ensures
        g1 is Ok ==> g2 == g1,
        g1 is Err ==> g2 is Err && g2->Err_0@ == g1->Err_0@,
{
}

/// `read_u16` behaves as two consecutive `read` calls: it succeeds when both
/// succeed, with the first byte as the high half of the value; otherwise it
/// fails with the first failing read's error. Either way it leaves the buffer
/// where the two reads leave it.
pub proof fn lemma_read_u16_is_two_reads(
    b0: PacketBuffer,
    b1: PacketBuffer,
    r1: Result<u8, String>,
    b2: PacketBuffer,
    r2: Result<u8, String>,
    after: PacketBuffer,
    r: Result<u16, String>,
)
    requires
        read_post(b0, b1, r1),
        read_post(b1, b2, r2),
        read_u16_post(b0, after, r),
    ensures
        r is Ok <==> r1 is Ok && r2 is Ok,
        r is Ok ==> r == Ok::<u16, String>(big_endian_u16(r1->Ok_0, r2->Ok_0)),
        r1 is Err ==> r->Err_0@ == r1->Err_0@,
        r1 is Ok && r2 is Err ==> r->Err_0@ == r2->Err_0@,
        after.cursor() == b2.cursor(),
        after.bytes() == b2.bytes(),
{
}

} // verus!
