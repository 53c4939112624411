//! The laws of the buffer protocol, stated over the mathematical model and
//! proved once for all inputs.

use vstd::prelude::*;
use crate::buffer::{
    Buffer, BufferView, Guest, Host, can_read, read_data, read_result, write_result,
};

verus! {

/// Flip idempotence of state: handing the buffer over and immediately
/// getting it back yields a handle whose cursors and region contents are
/// byte-identical to before the two flips.
pub fn flip_twice(b: Buffer<Host>) -> (r: Buffer<Host>)
    ensures
        r@ == b@,
{
    b.flip_ownership().flip_ownership()
}

/// Round-trip: writing `data` into a buffer whose cursors are level — a
/// fresh buffer in particular — and then reading `data.len()` bytes back
/// yields exactly `data`.
pub proof fn lemma_write_then_read_round_trip(v: BufferView, data: Seq<u8>)
    requires
        v.wf(),
        v.read_cursor == v.write_cursor,
        v.write_cursor + data.len() <= v.capacity(),
    ensures
        can_read(write_result(v, data), data.len()),
        read_data(write_result(v, data), data.len()) == data,
{
    assert(read_data(write_result(v, data), data.len()) =~= data);
}

/// Round-trip across a hand-off: writing `data` into a writer-side buffer
/// whose cursors are level — a fresh one in particular — then flipping
/// ownership and reading `data.len()` bytes as the reader yields exactly
/// `data`. The write and the read cannot fail here: their contracts owe
/// success on these inputs.
pub fn write_flip_read(writer: Buffer<Host>, data: &[u8]) -> (out: Vec<u8>)
    requires
        writer@.wf(),
        writer@.read_cursor == writer@.write_cursor,
        writer@.write_cursor + data@.len() <= writer@.capacity(),
    ensures
        out@ == data@,
{
    let ghost v0 = writer@;
    let mut writer = writer;
    let wrote = writer.write(data);
    proof {
        assert(wrote is Ok);
    }
    let mut reader = writer.flip_ownership();
    let got = reader.read_bytes(data.len());
    proof {
        lemma_write_then_read_round_trip(v0, data@);
        assert(got is Ok);
    }
    match got {
        Ok(out) => out,
        Err(_) => Vec::new(),
    }
}

/// The total number of bytes in a sequence of payloads.
pub open spec fn total_len(chunks: Seq<Seq<u8>>) -> nat
    decreases chunks.len(),
{
    if chunks.len() == 0 {
        0
    } else {
        chunks[0].len() + total_len(chunks.skip(1))
    }
}

/// The buffer state after the payloads in `chunks` are written one after
/// the other.
pub open spec fn write_all(v: BufferView, chunks: Seq<Seq<u8>>) -> BufferView
    decreases chunks.len(),
{
    if chunks.len() == 0 {
        v
    } else {
        write_all(write_result(v, chunks[0]), chunks.skip(1))
    }
}

/// Write-cursor monotonicity: after any sequence of writes and no flips the
/// write cursor has not decreased, it equals the cumulative number of bytes
/// written, and the read cursor is untouched.
pub proof fn lemma_write_cursor_cumulative(v: BufferView, chunks: Seq<Seq<u8>>)
    ensures
        write_all(v, chunks).write_cursor == v.write_cursor + total_len(chunks),
        v.write_cursor <= write_all(v, chunks).write_cursor,
        write_all(v, chunks).read_cursor == v.read_cursor,
    decreases chunks.len(),
{
    if chunks.len() > 0 {
        lemma_write_cursor_cumulative(write_result(v, chunks[0]), chunks.skip(1));
    }
}

/// The total of a sequence of read lengths.
pub open spec fn total_read(lens: Seq<nat>) -> nat
    decreases lens.len(),
{
    if lens.len() == 0 {
        0
    } else {
        lens[0] + total_read(lens.skip(1))
    }
}

/// The buffer state after reads of the lengths in `lens`, one after the
/// other.
pub open spec fn read_all(v: BufferView, lens: Seq<nat>) -> BufferView
    decreases lens.len(),
{
    if lens.len() == 0 {
        v
    } else {
        read_all(read_result(v, lens[0]), lens.skip(1))
    }
}

/// Read-cursor monotonicity: after any sequence of reads and no flips the
/// read cursor has not decreased, it equals the cumulative number of bytes
/// consumed, and neither the write cursor nor the region is touched.
pub proof fn lemma_read_cursor_cumulative(v: BufferView, lens: Seq<nat>)
    ensures
        read_all(v, lens).read_cursor == v.read_cursor + total_read(lens),
        v.read_cursor <= read_all(v, lens).read_cursor,
        read_all(v, lens).write_cursor == v.write_cursor,
        read_all(v, lens).bytes == v.bytes,
    decreases lens.len(),
{
    if lens.len() > 0 {
        lemma_read_cursor_cumulative(read_result(v, lens[0]), lens.skip(1));
    }
}

/// Capacity boundary: on a fresh buffer a payload of exactly `capacity`
/// bytes fits and leaves the write cursor at `capacity`, while any larger
/// payload exceeds the capacity itself, the case [`Buffer::write`] rejects
/// as `InsufficientCapacity` without mutating anything.
pub proof fn lemma_capacity_boundary(v: BufferView, data: Seq<u8>)
    requires
        v.wf(),
        v.read_cursor == 0,
        v.write_cursor == 0,
    ensures
        data.len() == v.capacity() ==> data.len() <= v.free_space() && write_result(
            v,
            data,
        ).write_cursor == v.capacity(),
        data.len() > v.capacity() ==> data.len() > v.free_space(),
{
}

} // verus!
