//! A linear byte buffer with a read cursor and a write cursor.

use vstd::prelude::*;
use vstd::slice::slice_subrange;

verus! {

/// What a [`ByteBuffer`] is, mathematically: its backing bytes and the two
/// cursors into them.
///
/// The bytes between the cursors are the readable contents; the bytes behind
/// the write cursor are free room.
pub struct BufferView {
    /// Every byte of the backing region; its length is the capacity.
    pub storage: Seq<u8>,
    /// The read cursor.
    pub start: nat,
    /// The write cursor.
    pub end: nat,
}

impl BufferView {
    /// The cursors are ordered and lie inside the backing region.
    pub open spec fn wf(self) -> bool {
        self.start <= self.end <= self.storage.len()
    }

    pub open spec fn capacity(self) -> nat {
        self.storage.len()
    }

    /// The bytes between the read cursor and the write cursor.
    pub open spec fn contents(self) -> Seq<u8> {
        self.storage.subrange(self.start as int, self.end as int)
    }

    pub open spec fn readable(self) -> nat {
        (self.end - self.start) as nat
    }

    pub open spec fn writable(self) -> nat {
        (self.storage.len() - self.end) as nat
    }

    /// A region of `cap` zero bytes with both cursors at its start.
    pub open spec fn fresh(cap: nat) -> BufferView {
        BufferView { storage: Seq::new(cap, |i: int| 0u8), start: 0, end: 0 }
    }

    /// Both cursors back at zero; the backing bytes stay as they are.
    pub open spec fn reset(self) -> BufferView {
        BufferView { storage: self.storage, start: 0, end: 0 }
    }

    /// The write cursor moved forward over `cnt` bytes of the free room.
    pub open spec fn extend(self, cnt: nat) -> BufferView {
        BufferView { storage: self.storage, start: self.start, end: self.end + cnt }
    }

    /// The read cursor moved forward over `cnt` readable bytes. A buffer that
    /// is drained by this starts over at zero.
    pub open spec fn consume(self, cnt: nat) -> BufferView {
        if self.start + cnt == self.end {
            self.reset()
        } else {
            BufferView { storage: self.storage, start: self.start + cnt, end: self.end }
        }
    }

    /// `bytes` copied into the free room at the write cursor, which then
    /// stands behind them.
    pub open spec fn write(self, bytes: Seq<u8>) -> BufferView {
        BufferView {
            storage: self.storage.subrange(0, self.end as int) + bytes + self.storage.subrange(
                (self.end + bytes.len()) as int,
                self.storage.len() as int,
            ),
            start: self.start,
            end: self.end + bytes.len(),
        }
    }

    /// `additional` zero bytes of room added behind the backing region.
    pub open spec fn reserve(self, additional: nat) -> BufferView {
        BufferView {
            storage: self.storage + Seq::new(additional, |i: int| 0u8),
            start: self.start,
            end: self.end,
        }
    }
}

/// The error of a write that does not fit into the free room.
#[derive(Clone, Copy, Debug, PartialEq, Eq, Structural)]
pub struct BufferOverflow {
    /// The capacity of the buffer that refused the write.
    pub capacity: usize,
}

/// A byte region of fixed capacity that is filled at its write cursor and
/// drained at its read cursor.
#[derive(Debug)]
pub struct ByteBuffer {
    buf: Vec<u8>,
    next_read: usize,
    next_write: usize,
}

impl View for ByteBuffer {
    type V = BufferView;

    closed spec fn view(&self) -> BufferView {
        BufferView {
            storage: self.buf@,
            start: self.next_read as nat,
            end: self.next_write as nat,
        }
    }
}

impl ByteBuffer {
    /// What holds of every buffer: its cursors are ordered and lie inside
    /// its backing region, whose size is a machine word.
    #[verifier::type_invariant]
    pub open spec fn inv(&self) -> bool {
        self@.wf() && self@.capacity() <= usize::MAX
    }

    /// A buffer of `cap` zero bytes, with nothing to read.
    pub fn with_capacity(cap: usize) -> (b: ByteBuffer)
        ensures
            b@ == BufferView::fresh(cap as nat),
    {
        let buf = vec![0u8; cap];
        assert(buf@ =~= Seq::new(cap as nat, |i: int| 0u8));
        ByteBuffer { buf, next_read: 0, next_write: 0 }
    }

    pub fn capacity(&self) -> (n: usize)
        ensures
            n == self@.capacity(),
    {
        self.buf.len()
    }

    /// The number of bytes between the cursors.
    pub fn readable(&self) -> (n: usize)
        ensures
            n == self@.readable(),
            self@.wf(),
    {
        proof {
            use_type_invariant(self);
        }
        self.next_write - self.next_read
    }

    pub fn is_readable(&self) -> (b: bool)
        ensures
            b == (self@.readable() > 0),
            self@.wf(),
    {
        self.readable() > 0
    }

    /// The number of bytes of free room behind the write cursor.
    pub fn writable(&self) -> (n: usize)
        ensures
            n == self@.writable(),
            self@.wf(),
    {
        proof {
            use_type_invariant(self);
        }
        self.buf.len() - self.next_write
    }

    pub fn is_writable(&self) -> (b: bool)
        ensures
            b == (self@.writable() > 0),
            self@.wf(),
    {
        self.writable() > 0
    }

    /// Takes `cnt` bytes of the free room into the readable contents, as they
    /// stand.
    pub fn extend(&mut self, cnt: usize)
        requires
            cnt <= old(self)@.writable(),
        ensures
            final(self)@ == old(self)@.extend(cnt as nat),
            final(self)@.wf(),
    {
        proof {
            use_type_invariant(&*self);
        }
        self.next_write = self.next_write + cnt;
    }

    /// Drops the first `cnt` readable bytes.
    pub fn consume(&mut self, cnt: usize)
        requires
            cnt <= old(self)@.readable(),
        ensures
            final(self)@ == old(self)@.consume(cnt as nat),
            final(self)@.wf(),
    {
        proof {
            use_type_invariant(&*self);
        }
        self.next_read = self.next_read + cnt;
        if self.next_read == self.next_write {
            self.next_read = 0;
            self.next_write = 0;
        }
    }

    /// Discards the contents; the capacity stays.
    pub fn reset(&mut self)
        ensures
            final(self)@ == old(self)@.reset(),
            final(self)@.wf(),
    {
        proof {
            use_type_invariant(&*self);
        }
        self.next_read = 0;
        self.next_write = 0;
    }

    /// Appends `bytes` where they fit into the free room, and refuses them
    /// whole where they do not.
    pub fn write(&mut self, bytes: &[u8]) -> (r: Result<usize, BufferOverflow>)
        ensures
            final(self)@.wf(),
            bytes@.len() <= old(self)@.writable() ==> r == Ok::<usize, BufferOverflow>(
                bytes@.len() as usize,
            ) && final(self)@ == old(self)@.write(bytes@),
            bytes@.len() > old(self)@.writable() ==> r == Err::<usize, BufferOverflow>(
                BufferOverflow { capacity: old(self)@.capacity() as usize },
            ) && final(self)@ == old(self)@,
    {
        proof {
            use_type_invariant(&*self);
        }
        let len = bytes.len();
        let at = self.next_write;
        if len > self.buf.len() - at {
            return Err(BufferOverflow { capacity: self.buf.len() });
        }
        let mut i: usize = 0;
        while i < len
            invariant
                i <= len,
                len == bytes@.len(),
                at == old(self).next_write,
                at + len <= self.buf.len(),
                self.buf.len() <= usize::MAX,
                self.next_read == old(self).next_read,
                self.next_write == old(self).next_write,
                self.buf@.len() == old(self).buf@.len(),
                self.next_read <= self.next_write,
                forall|j: int| 0 <= j < at ==> self.buf@[j] == old(self).buf@[j],
                forall|j: int| at <= j < at + i ==> self.buf@[j] == bytes@[j - at],
                forall|j: int|
                    at + i <= j < self.buf@.len() ==> self.buf@[j] == old(self).buf@[j],
            decreases len - i,
        {
            self.buf[at + i] = bytes[i];
            i = i + 1;
        }
        self.next_write = at + len;
        assert(self@.storage =~= old(self)@.write(bytes@).storage);
        Ok(len)
    }

    /// The readable bytes from offset `at` on.
    pub fn slice(&self, at: usize) -> (s: &[u8])
        requires
            at <= self@.readable(),
        ensures
            s@ == self@.contents().skip(at as int),
    {
        proof {
            use_type_invariant(self);
        }
        let s = slice_subrange(self.buf.as_slice(), self.next_read + at, self.next_write);
        assert(s@ =~= self@.contents().skip(at as int));
        s
    }

    /// Adds `additional` bytes of free room; contents and cursors stay.
    pub fn reserve(&mut self, additional: usize)
        requires
            old(self)@.capacity() + additional <= usize::MAX,
        ensures
            final(self)@ == old(self)@.reserve(additional as nat),
            final(self)@.wf(),
    {
        proof {
            use_type_invariant(&*self);
        }
        let cap = self.buf.len();
        let mut grown = vec![0u8; cap + additional];
        let mut i: usize = 0;
        while i < cap
            invariant
                i <= cap,
                cap == self.buf@.len(),
                grown@.len() == cap + additional,
                forall|j: int| 0 <= j < i ==> grown@[j] == self.buf@[j],
                forall|j: int| i <= j < cap + additional ==> grown@[j] == 0u8,
            decreases cap - i,
        {
            grown[i] = self.buf[i];
            i = i + 1;
        }
        assert(grown@ =~= old(self)@.reserve(additional as nat).storage);
        self.buf = grown;
    }
}

/// A write that fits appends its bytes to the contents and leaves the
/// capacity and the read cursor alone.
pub proof fn lemma_write_appends(buffer: BufferView, bytes: Seq<u8>)
    requires
        buffer.wf(),
        bytes.len() <= buffer.writable(),
    ensures
        buffer.write(bytes).wf(),
        buffer.write(bytes).capacity() == buffer.capacity(),
        buffer.write(bytes).start == buffer.start,
        buffer.write(bytes).contents() == buffer.contents() + bytes,
        buffer.write(bytes).readable() == buffer.readable() + bytes.len(),
{
    assert(buffer.write(bytes).contents() =~= buffer.contents() + bytes);
}

/// Two writes one after the other are one write of the two pieces joined.
pub proof fn lemma_write_in_parts(buffer: BufferView, first: Seq<u8>, second: Seq<u8>)
    requires
        buffer.wf(),
        first.len() + second.len() <= buffer.writable(),
    ensures
        buffer.write(first).write(second) == buffer.write(first + second),
{
    assert(buffer.write(first).write(second).storage =~= buffer.write(first + second).storage);
}

/// Consuming keeps the buffer well-formed and its capacity, and drops the
/// consumed bytes from the front of the contents.
pub proof fn lemma_consume_drops(buffer: BufferView, cnt: nat)
    requires
        buffer.wf(),
        cnt <= buffer.readable(),
    ensures
        buffer.consume(cnt).wf(),
        buffer.consume(cnt).capacity() == buffer.capacity(),
        buffer.consume(cnt).contents() == buffer.contents().skip(cnt as int),
        buffer.consume(cnt).readable() == buffer.readable() - cnt,
{
    assert(buffer.consume(cnt).contents() =~= buffer.contents().skip(cnt as int));
}

/// Reserving keeps the contents and adds to the capacity and to the room.
pub proof fn lemma_reserve_adds_room(buffer: BufferView, additional: nat)
    requires
        buffer.wf(),
    ensures
        buffer.reserve(additional).wf(),
        buffer.reserve(additional).capacity() == buffer.capacity() + additional,
        buffer.reserve(additional).writable() == buffer.writable() + additional,
        buffer.reserve(additional).contents() == buffer.contents(),
{
    assert(buffer.reserve(additional).contents() =~= buffer.contents());
}

/// A buffer that is reset is empty, has all of its capacity as room, and
/// stays as it is when it is reset again.
pub proof fn lemma_reset_empties(buffer: BufferView)
    ensures
        buffer.reset().wf(),
        buffer.reset().capacity() == buffer.capacity(),
        buffer.reset().readable() == 0,
        buffer.reset().writable() == buffer.capacity(),
        buffer.reset().contents() == Seq::<u8>::empty(),
        buffer.reset().reset() == buffer.reset(),
{
    assert(buffer.reset().contents() =~= Seq::<u8>::empty());
}

} // verus!
