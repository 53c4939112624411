//! The shared buffer and its ownership-transfer protocol.
//!
//! The buffer is a fixed-capacity byte region with two cursors: the write
//! cursor counts the bytes produced so far, the read cursor the bytes
//! consumed. A handle over the buffer carries a compile-time role: only a
//! writer-role handle exposes `write`, only a reader-role handle exposes
//! `read` and `read_bytes`, and `flip_ownership` converts one into the other
//! by consuming it, so no two live handles with conflicting capabilities can
//! coexist.

use vstd::prelude::*;
use vstd::array::array_fill_for_copy_types;
use core::marker::PhantomData;

verus! {

broadcast use vstd::array::group_array_axioms;

/// The mathematical state of a buffer, independent of which side holds it:
/// the bytes of the region and the two cursor values.
#[verifier::ext_equal]
pub ghost struct BufferView {
    pub bytes: Seq<u8>,
    pub read_cursor: nat,
    pub write_cursor: nat,
}

impl BufferView {
    /// The fixed capacity: the length of the byte region.
    pub open spec fn capacity(self) -> nat {
        self.bytes.len()
    }

    /// Well-formedness: cursors sit inside the region and never cross, and
    /// the capacity fits the 32-bit header field.
    pub open spec fn wf(self) -> bool {
        &&& self.read_cursor <= self.write_cursor
        &&& self.write_cursor <= self.bytes.len()
        &&& self.bytes.len() <= u32::MAX
    }

    /// Bytes still free to the right of the write cursor.
    pub open spec fn free_space(self) -> nat
        recommends self.wf(),
    {
        (self.bytes.len() - self.write_cursor) as nat
    }

    /// Bytes written but not yet consumed by the reader.
    pub open spec fn unread(self) -> nat
        recommends self.wf(),
    {
        (self.write_cursor - self.read_cursor) as nat
    }
}

/// The buffer state after `data` is written at the write cursor: the bytes
/// under `[write_cursor, write_cursor + data.len())` are replaced by `data`,
/// the write cursor advances by `data.len()`, and everything else is kept.
pub open spec fn write_result(v: BufferView, data: Seq<u8>) -> BufferView {
    BufferView {
        bytes: v.bytes.take(v.write_cursor as int) + data + v.bytes.skip(
            v.write_cursor + data.len() as int,
        ),
        read_cursor: v.read_cursor,
        write_cursor: v.write_cursor + data.len(),
    }
}

/// Whether `len` bytes can be consumed: they must already have been written.
pub open spec fn can_read(v: BufferView, len: nat) -> bool {
    v.read_cursor + len <= v.write_cursor
}

/// The `len` bytes that a read at the read cursor yields.
pub open spec fn read_data(v: BufferView, len: nat) -> Seq<u8> {
    v.bytes.subrange(v.read_cursor as int, v.read_cursor + len as int)
}

/// The buffer state after `len` bytes are consumed: only the read cursor
/// moves.
pub open spec fn read_result(v: BufferView, len: nat) -> BufferView {
    BufferView { bytes: v.bytes, read_cursor: v.read_cursor + len, write_cursor: v.write_cursor }
}

/// Why a write or a read was refused. The buffer is left untouched in every
/// case, so the caller may retry with a smaller payload.
#[derive(Clone, Copy, Debug, PartialEq, Eq, Structural)]
pub enum BufferError {
    /// A single write larger than the whole region: it could never succeed.
    InsufficientCapacity { requested: usize, available: usize },
    /// The write fits the region but not the space left of this buffer; the
    /// overflow policy is to fail fast, never to wrap or compact.
    BufferFull { requested: usize, free: usize },
    /// A read past the bytes written so far.
    BufferUnderflow { requested: usize, readable: usize },
}

/// The role a buffer handle carries: implemented exactly by [`Host`] and
/// [`Guest`], the two sides of the sandbox boundary.
pub trait BufferOwner {
    /// Whether this role designates the host side.
    spec fn is_host() -> bool;

    /// Runtime counterpart of [`BufferOwner::is_host`], consulted when the
    /// far side must learn who starts as the writer.
    fn host_owner() -> (r: bool)
        ensures
            r == Self::is_host(),
    ;
}

/// The trusted controlling process around the sandbox.
pub struct Host;

/// The untrusted module inside the sandbox.
pub struct Guest;

impl BufferOwner for Host {
    open spec fn is_host() -> bool {
        true
    }

    fn host_owner() -> (r: bool) {
        true
    }
}

impl BufferOwner for Guest {
    open spec fn is_host() -> bool {
        false
    }

    fn host_owner() -> (r: bool) {
        false
    }
}

/// The handshake record the allocation bridge produces: the region itself,
/// the two cursor values, and the flag naming the side that starts as the
/// writer. Both sides interpret the same record to build their handle.
pub struct BufferBuilder {
    pub size: u32,
    pub region: Vec<u8>,
    pub last_read: u32,
    pub last_write: u32,
    pub host_writer: i32,
}

impl BufferBuilder {
    /// A builder is coherent when the region matches the declared size and
    /// the cursors sit inside it without crossing.
    pub open spec fn wf(&self) -> bool {
        &&& self.region@.len() == self.size
        &&& self.last_read <= self.last_write
        &&& self.last_write <= self.size
    }
}

/// The allocation bridge: reserves a zero-initialized region of `size` bytes
/// together with two zeroed cursor cells, and records which side starts as
/// the writer. Called once per logical buffer; a second call yields an
/// independent, unrelated buffer.
pub fn initiate_buffer(size: u32, host_writer: i32) -> (b: BufferBuilder)
    ensures
        b.wf(),
        b.size == size,
        b.region@.len() == size,
        forall|i: int| 0 <= i < size ==> b.region@[i] == 0u8,
        b.last_read == 0,
        b.last_write == 0,
        b.host_writer == host_writer,
{
    let mut region: Vec<u8> = Vec::new();
    let mut i: u32 = 0;
    while i < size
        invariant
            i <= size,
            region@.len() == i,
            forall|j: int| 0 <= j < i ==> region@[j] == 0u8,
        decreases size - i,
    {
        region.push(0u8);
        i = i + 1;
    }
    BufferBuilder { size, region, last_read: 0, last_write: 0, host_writer }
}

/// A handle over the shared buffer, tagged by the role that currently owns
/// it. Write operations exist only on the writer-role handle
/// (`Buffer<Host>`), read operations only on the reader-role handle
/// (`Buffer<Guest>`); the tag is a zero-sized marker, so both roles carry
/// the identical underlying state.
pub struct Buffer<Owner: BufferOwner> {
    region: Vec<u8>,
    read_cursor: u32,
    write_cursor: u32,
    _host_writer: PhantomData<Owner>,
}

impl<Owner: BufferOwner> View for Buffer<Owner> {
    type V = BufferView;

    closed spec fn view(&self) -> BufferView {
        BufferView {
            bytes: self.region@,
            read_cursor: self.read_cursor as nat,
            write_cursor: self.write_cursor as nat,
        }
    }
}

impl<Owner: BufferOwner> Buffer<Owner> {
    /// Builds a handle of the caller's role over a freshly allocated buffer:
    /// the allocation bridge is invoked with this role's flag, and the record
    /// it returns is parsed into the handle.
    pub fn new(size: u32) -> (b: Buffer<Owner>)
        ensures
            b@.wf(),
            b@.capacity() == size,
            b@.read_cursor == 0,
            b@.write_cursor == 0,
            forall|i: int| 0 <= i < size ==> b@.bytes[i] == 0u8,
    {
        let host_is_writer = Owner::host_owner();
        let flag: i32 = if host_is_writer {
            1
        } else {
            0
        };
        let builder = initiate_buffer(size, flag);
        Buffer::from_builder(builder)
    }

    /// Parses the bridge's record into a handle with the caller's intended
    /// role. The record's fields are adopted verbatim: in particular the
    /// cursors are never reset here.
    pub fn from_builder(builder: BufferBuilder) -> (b: Buffer<Owner>)
        requires
            builder.wf(),
        ensures
            b@.wf(),
            b@.bytes == builder.region@,
            b@.read_cursor == builder.last_read,
            b@.write_cursor == builder.last_write,
    {
        Buffer {
            region: builder.region,
            read_cursor: builder.last_read,
            write_cursor: builder.last_write,
            _host_writer: PhantomData,
        }
    }

    /// The fixed capacity of the region.
    pub fn capacity(&self) -> (r: usize)
        ensures
            r == self@.capacity(),
    {
        self.region.len()
    }

    /// How many bytes have been produced so far.
    pub fn write_cursor(&self) -> (r: u32)
        ensures
            r == self@.write_cursor,
    {
        self.write_cursor
    }

    /// How many bytes have been consumed so far.
    pub fn read_cursor(&self) -> (r: u32)
        ensures
            r == self@.read_cursor,
    {
        self.read_cursor
    }
}

impl Buffer<Host> {
    /// Writes `data` into the region at the write cursor and advances the
    /// cursor by `data.len()`. Fails with `InsufficientCapacity` when `data`
    /// is larger than the whole region, and — the fail-fast overflow policy
    /// of this buffer, which never wraps nor compacts — with `BufferFull`
    /// when `data` does not fit in the free space to the right of the
    /// cursor. On failure nothing is mutated.
    pub fn write(&mut self, data: &[u8]) -> (r: Result<(), BufferError>)
        requires
            old(self)@.wf(),
        ensures
            final(self)@.wf(),
            final(self)@.capacity() == old(self)@.capacity(),
            final(self)@.read_cursor == old(self)@.read_cursor,
            match r {
                Ok(()) => {
                    &&& data@.len() <= old(self)@.free_space()
                    &&& final(self)@ == write_result(old(self)@, data@)
                },
                Err(e) => final(self)@ == old(self)@ && match e {
                    BufferError::InsufficientCapacity { requested, available } => {
                        &&& data@.len() > old(self)@.capacity()
                        &&& requested == data@.len()
                        &&& available == old(self)@.capacity()
                    },
                    BufferError::BufferFull { requested, free } => {
                        &&& data@.len() <= old(self)@.capacity()
                        &&& data@.len() > old(self)@.free_space()
                        &&& requested == data@.len()
                        &&& free == old(self)@.free_space()
                    },
                    BufferError::BufferUnderflow { .. } => false,
                },
            },
    {
        let ghost v0 = self@;
        let n: usize = data.len();
        let cap: usize = self.region.len();
        if n > cap {
            return Err(BufferError::InsufficientCapacity { requested: n, available: cap });
        }
        let start: usize = self.write_cursor as usize;
        let free_right: usize = cap - start;
        if n > free_right {
            return Err(BufferError::BufferFull { requested: n, free: free_right });
        }
        let mut i: usize = 0;
        while i < n
            invariant
                i <= n,
                v0.wf(),
                start == v0.write_cursor,
                start + n <= v0.bytes.len(),
                self.region@.len() == v0.bytes.len(),
                self.read_cursor == v0.read_cursor,
                self.write_cursor == v0.write_cursor,
                data@.len() == n,
                forall|j: int| 0 <= j < start ==> self.region@[j] == v0.bytes[j],
                forall|j: int| 0 <= j < i ==> self.region@[start + j] == data@[j],
                forall|j: int| start + n <= j < v0.bytes.len() ==> self.region@[j] == v0.bytes[j],
            decreases n - i,
        {
            self.region[start + i] = data[i];
            i = i + 1;
        }
        self.write_cursor = self.write_cursor + n as u32;
        proof {
            assert(self@.bytes =~= write_result(v0, data@).bytes);
            assert(self@ =~= write_result(v0, data@));
        }
        Ok(())
    }

    /// Gives ownership of the buffer to the guest side: the handle is
    /// consumed, and the identical state — same region, same cursors — is
    /// returned under the reader role. No byte moves and no cursor resets.
    pub fn flip_ownership(self) -> (r: Buffer<Guest>)
        ensures
            r@ == self@,
    {
        Buffer {
            region: self.region,
            read_cursor: self.read_cursor,
            write_cursor: self.write_cursor,
            _host_writer: PhantomData,
        }
    }
}

impl Buffer<Guest> {
    /// Reads `len` bytes at the read cursor into a fresh vector and advances
    /// the cursor by `len`. Fails with `BufferUnderflow` when fewer than
    /// `len` written bytes remain unconsumed; nothing is mutated then.
    pub fn read_bytes(&mut self, len: usize) -> (r: Result<Vec<u8>, BufferError>)
        requires
            old(self)@.wf(),
        ensures
            final(self)@.wf(),
            final(self)@.bytes == old(self)@.bytes,
            final(self)@.write_cursor == old(self)@.write_cursor,
            match r {
                Ok(out) => {
                    &&& can_read(old(self)@, len as nat)
                    &&& out@ == read_data(old(self)@, len as nat)
                    &&& final(self)@ == read_result(old(self)@, len as nat)
                },
                Err(e) => final(self)@ == old(self)@ && match e {
                    BufferError::BufferUnderflow { requested, readable } => {
                        &&& len > old(self)@.unread()
                        &&& requested == len
                        &&& readable == old(self)@.unread()
                    },
                    _ => false,
                },
            },
    {
        let ghost v0 = self@;
        let unread_now: usize = (self.write_cursor - self.read_cursor) as usize;
        if len > unread_now {
            return Err(BufferError::BufferUnderflow { requested: len, readable: unread_now });
        }
        let start: usize = self.read_cursor as usize;
        let mut out: Vec<u8> = Vec::new();
        let mut i: usize = 0;
        while i < len
            invariant
                i <= len,
                self@ == v0,
                v0.wf(),
                start == v0.read_cursor,
                start + len <= v0.write_cursor,
                out@.len() == i,
                forall|j: int| 0 <= j < i ==> out@[j] == v0.bytes[start + j],
            decreases len - i,
        {
            let b = self.region[start + i];
            out.push(b);
            i = i + 1;
        }
        self.read_cursor = self.read_cursor + len as u32;
        proof {
            assert(out@ =~= read_data(v0, len as nat));
            assert(self@ =~= read_result(v0, len as nat));
        }
        Ok(out)
    }

    /// Reads the next `N` bytes as a fixed-width array and advances the
    /// cursor by `N`: the checked counterpart of a typed read, for a caller
    /// that reassembles a fixed-size value out of the bytes a matching write
    /// produced. Fails with `BufferUnderflow` when fewer than `N` written
    /// bytes remain unconsumed; nothing is mutated then.
    pub fn read<const N: usize>(&mut self) -> (r: Result<[u8; N], BufferError>)
        requires
            old(self)@.wf(),
        ensures
            final(self)@.wf(),
            final(self)@.bytes == old(self)@.bytes,
            final(self)@.write_cursor == old(self)@.write_cursor,
            match r {
                Ok(out) => {
                    &&& can_read(old(self)@, N as nat)
                    &&& out@ == read_data(old(self)@, N as nat)
                    &&& final(self)@ == read_result(old(self)@, N as nat)
                },
                Err(e) => final(self)@ == old(self)@ && match e {
                    BufferError::BufferUnderflow { requested, readable } => {
                        &&& N > old(self)@.unread()
                        &&& requested == N
                        &&& readable == old(self)@.unread()
                    },
                    _ => false,
                },
            },
    {
        let ghost v0 = self@;
        let unread_now: usize = (self.write_cursor - self.read_cursor) as usize;
        if N > unread_now {
            return Err(BufferError::BufferUnderflow { requested: N, readable: unread_now });
        }
        let start: usize = self.read_cursor as usize;
        let mut out: [u8; N] = array_fill_for_copy_types(0u8);
        let mut i: usize = 0;
        while i < N
            invariant
                i <= N,
                self@ == v0,
                v0.wf(),
                start == v0.read_cursor,
                start + N <= v0.write_cursor,
                out@.len() == N,
                forall|j: int| 0 <= j < i ==> out@[j] == v0.bytes[start + j],
            decreases N - i,
        {
            out[i] = self.region[start + i];
            i = i + 1;
        }
        self.read_cursor = self.read_cursor + N as u32;
        proof {
            assert(out@ =~= read_data(v0, N as nat));
            assert(self@ =~= read_result(v0, N as nat));
        }
        Ok(out)
    }

    /// Gives ownership of the buffer back to the host side: the handle is
    /// consumed, and the identical state — same region, same cursors — is
    /// returned under the writer role. No byte moves and no cursor resets.
    pub fn flip_ownership(self) -> (r: Buffer<Host>)
        ensures
            r@ == self@,
    {
        Buffer {
            region: self.region,
            read_cursor: self.read_cursor,
            write_cursor: self.write_cursor,
            _host_writer: PhantomData,
        }
    }
}

} // verus!
