//! A fixed-size byte FIFO with one reader and one writer.
//!
//! The read and write counters run freely and wrap at the end of the `usize`
//! range; `SIZE` is a power of two, so the offsets into the buffer stay
//! consistent across the wrap.
use vstd::prelude::*;
use vstd::arithmetic::div_mod::{
    lemma_add_mod_noop_right,
    lemma_fundamental_div_mod,
    lemma_fundamental_div_mod_converse,
    lemma_mod_multiples_vanish,
};
use vstd::arithmetic::mul::lemma_mul_is_commutative;
use vstd::string::StringSliceAdditionalSpecFns;

verus! {

/// `size` divides the range of the counters: it is a power of two.
pub open spec fn size_fits(size: usize) -> bool {
    size > 0 && usize::MAX % size == size - 1
}

/// The smaller of two integers.
pub open spec fn min_int(a: int, b: int) -> int {
    if a <= b {
        a
    } else {
        b
    }
}

/// The number of distinct counter values.
spec fn counter_range() -> int {
    usize::MAX as int + 1
}

proof fn lemma_range_is_multiple(size: usize)
    requires
        size_fits(size),
    ensures
        counter_range() % (size as int) == 0,
        counter_range() == (size as int) * (counter_range() / (size as int)),
{
    let s = size as int;
    let m = usize::MAX as int;
    lemma_fundamental_div_mod(m, s);
    let q = m / s;
    assert(m + 1 == s * (q + 1)) by (nonlinear_arith)
        requires
            m == s * q + (s - 1),
    ;
    lemma_mod_multiples_vanish(q + 1, 0, s);
    lemma_fundamental_div_mod_converse(m + 1, s, q + 1, 0);
    lemma_mul_is_commutative(s, q + 1);
}

/// Moving a counter by the whole counter range keeps its offset.
proof fn lemma_wrap_keeps_offset(x: int, size: usize)
    requires
        size_fits(size),
    ensures
        (x + counter_range()) % (size as int) == x % (size as int),
        (x - counter_range()) % (size as int) == x % (size as int),
{
    let s = size as int;
    lemma_range_is_multiple(size);
    let k = counter_range() / s;
    lemma_mod_multiples_vanish(k, x, s);
    lemma_mod_multiples_vanish(-k, x, s);
    assert(s * (-k) == -(s * k)) by (nonlinear_arith);
}

/// Two positions less than `m` apart have different offsets.
proof fn lemma_mod_distinct(a: int, b: int, m: int)
    requires
        0 < m,
        a < b < a + m,
    ensures
        a % m != b % m,
{
    lemma_fundamental_div_mod(a, m);
    lemma_fundamental_div_mod(b, m);
    if a % m == b % m {
        let d = b / m - a / m;
        assert(b - a == m * d) by (nonlinear_arith)
            requires
                a == m * (a / m) + a % m,
                b == m * (b / m) + b % m,
                a % m == b % m,
                d == b / m - a / m,
        ;
        assert(false) by (nonlinear_arith)
            requires
                b - a == m * d,
                0 < b - a < m,
                0 < m,
        ;
    }
}

/// Stepping forward from an offset without reaching `m` adds to the offset.
proof fn lemma_mod_step(x: int, j: int, m: int)
    requires
        0 < m,
        0 <= j,
        x % m + j < m,
    ensures
        (x + j) % m == x % m + j,
{
    lemma_fundamental_div_mod(x, m);
    lemma_mul_is_commutative(m, x / m);
    lemma_fundamental_div_mod_converse(x + j, m, x / m, x % m + j);
}

/// A byte FIFO of `SIZE` bytes.
pub struct RingBuffer<const SIZE: usize> {
    read_cnt: usize,
    write_cnt: usize,
    reader_active: bool,
    writer_active: bool,
    buffer: Vec<u8>,
}

/// The right to read from a ring buffer; only one exists at a time.
pub struct RingBufferReader<const SIZE: usize> {
    token: (),
}

/// The right to write into a ring buffer; only one exists at a time.
pub struct RingBufferWriter<const SIZE: usize> {
    token: (),
}

impl<const SIZE: usize> View for RingBuffer<SIZE> {
    type V = Seq<u8>;

    /// The bytes written and not yet read, oldest first.
    closed spec fn view(&self) -> Seq<u8> {
        Seq::new(
            self.fill() as nat,
            |k: int| self.buffer@[(self.read_cnt + k) % (SIZE as int)],
        )
    }
}

impl<const SIZE: usize> RingBuffer<SIZE> {
    /// How far the write counter runs ahead of the read counter.
    closed spec fn fill(&self) -> int {
        if self.write_cnt >= self.read_cnt {
            self.write_cnt - self.read_cnt
        } else {
            self.write_cnt - self.read_cnt + counter_range()
        }
    }

    /// The buffer is laid out consistently.
    pub closed spec fn wf(&self) -> bool {
        &&& size_fits(SIZE)
        &&& self.buffer@.len() == SIZE
        &&& self.fill() <= SIZE
    }

    /// Where in the buffer the next byte is read from.
    pub closed spec fn read_offset(&self) -> int {
        self.read_cnt as int % (SIZE as int)
    }

    /// Where in the buffer the next byte is written to.
    pub closed spec fn write_offset(&self) -> int {
        self.write_cnt as int % (SIZE as int)
    }

    /// A reader has been handed out and not given back.
    pub closed spec fn reader_taken(&self) -> bool {
        self.reader_active
    }

    /// A writer has been handed out and not given back.
    pub closed spec fn writer_taken(&self) -> bool {
        self.writer_active
    }

    /// The free bytes that follow the write offset without wrapping.
    pub open spec fn write_chunk(&self) -> int {
        min_int(SIZE - self@.len(), SIZE - self.write_offset())
    }

    /// The unread bytes that follow the read offset without wrapping.
    pub open spec fn read_chunk(&self) -> int {
        min_int(self@.len() as int, SIZE - self.read_offset())
    }

    /// Facts of the layout that hold of every well-formed buffer.
    pub proof fn lemma_layout(&self)
        requires
            self.wf(),
        ensures
            size_fits(SIZE),
            self@.len() <= SIZE,
            0 <= self.read_offset() < SIZE,
            0 <= self.write_offset() < SIZE,
            self.write_offset() == (self.read_offset() + self@.len()) % (SIZE as int),
    {
        let s = SIZE as int;
        let r = self.read_cnt as int;
        let w = self.write_cnt as int;
        let len: int = self.fill();
        if w >= r {
            assert(w == r + len);
        } else {
            assert(w == r + len - counter_range());
            lemma_wrap_keeps_offset(r + len, SIZE);
        }
        vstd::arithmetic::div_mod::lemma_add_mod_noop(r, len, s);
        if len < s {
            vstd::arithmetic::div_mod::lemma_small_mod(len as nat, s as nat);
        } else {
            vstd::arithmetic::div_mod::lemma_mod_self_0(s);
            lemma_mod_multiples_vanish(1, r % s, s);
            vstd::arithmetic::div_mod::lemma_mod_twice(r, s);
        }
    }

    /// An empty buffer whose counters both stand at `cnt`.
    pub fn starting_at(cnt: usize) -> (rb: Self)
        requires
            size_fits(SIZE),
        ensures
            rb.wf(),
            rb@ == Seq::<u8>::empty(),
            rb.read_offset() == cnt as int % (SIZE as int),
            rb.write_offset() == cnt as int % (SIZE as int),
            !rb.reader_taken(),
            !rb.writer_taken(),
    {
        let mut buffer: Vec<u8> = Vec::new();
        while buffer.len() < SIZE
            invariant
                buffer@.len() <= SIZE,
            decreases SIZE - buffer@.len(),
        {
            buffer.push(0);
        }
        let rb = RingBuffer {
            read_cnt: cnt,
            write_cnt: cnt,
            reader_active: false,
            writer_active: false,
            buffer,
        };
        assert(rb@ =~= Seq::<u8>::empty());
        rb
    }

    /// An empty buffer.
    pub fn new() -> (rb: Self)
        requires
            size_fits(SIZE),
        ensures
            rb.wf(),
            rb@ == Seq::<u8>::empty(),
            rb.read_offset() == 0,
            rb.write_offset() == 0,
            !rb.reader_taken(),
            !rb.writer_taken(),
    {
        Self::starting_at(0)
    }

    /// Hands out the reader, unless it is out already.
    pub fn reader(&mut self) -> (r: Option<RingBufferReader<SIZE>>)
        ensures
            r is Some <==> !old(self).reader_taken(),
            final(self).reader_taken(),
            final(self).writer_taken() == old(self).writer_taken(),
            final(self)@ == old(self)@,
            final(self).read_offset() == old(self).read_offset(),
            final(self).write_offset() == old(self).write_offset(),
            final(self).wf() == old(self).wf(),
    {
        if self.reader_active {
            None
        } else {
            self.reader_active = true;
            Some(RingBufferReader { token: () })
        }
    }

    /// Hands out the writer, unless it is out already.
    pub fn writer(&mut self) -> (w: Option<RingBufferWriter<SIZE>>)
        ensures
            w is Some <==> !old(self).writer_taken(),
            final(self).writer_taken(),
            final(self).reader_taken() == old(self).reader_taken(),
            final(self)@ == old(self)@,
            final(self).read_offset() == old(self).read_offset(),
            final(self).write_offset() == old(self).write_offset(),
            final(self).wf() == old(self).wf(),
    {
        if self.writer_active {
            None
        } else {
            self.writer_active = true;
            Some(RingBufferWriter { token: () })
        }
    }

    /// Takes the reader back, so that it can be handed out again.
    pub fn release_reader(&mut self, reader: RingBufferReader<SIZE>)
        ensures
            !final(self).reader_taken(),
            final(self).writer_taken() == old(self).writer_taken(),
            final(self)@ == old(self)@,
            final(self).read_offset() == old(self).read_offset(),
            final(self).write_offset() == old(self).write_offset(),
            final(self).wf() == old(self).wf(),
    {
        let RingBufferReader { token: _ } = reader;
        self.reader_active = false;
    }

    /// Takes the writer back, so that it can be handed out again.
    pub fn release_writer(&mut self, writer: RingBufferWriter<SIZE>)
        ensures
            !final(self).writer_taken(),
            final(self).reader_taken() == old(self).reader_taken(),
            final(self)@ == old(self)@,
            final(self).read_offset() == old(self).read_offset(),
            final(self).write_offset() == old(self).write_offset(),
            final(self).wf() == old(self).wf(),
    {
        let RingBufferWriter { token: _ } = writer;
        self.writer_active = false;
    }
}

/// The counter value `n` steps after `cnt`, wrapping at the end of the range.
spec fn advanced(cnt: usize, n: int) -> int {
    if cnt + n > usize::MAX {
        cnt + n - counter_range()
    } else {
        cnt + n
    }
}

/// Advancing a counter by `n` advances its offset by `n`, modulo `SIZE`.
proof fn lemma_advance_offset(cnt: usize, n: int, size: usize)
    requires
        size_fits(size),
    ensures
        advanced(cnt, n) % (size as int) == (cnt as int % (size as int) + n) % (size as int),
{
    let s = size as int;
    if cnt + n > usize::MAX {
        lemma_wrap_keeps_offset(cnt + n, size);
    }
    lemma_add_mod_noop_right(n, cnt as int, s);
}

impl<const SIZE: usize> RingBufferWriter<SIZE> {
    /// Copies as much of `data` as fits into the free bytes that follow the
    /// write offset, and returns how many bytes it copied; `None` when the
    /// buffer is full.
    pub fn try_write(&mut self, rb: &mut RingBuffer<SIZE>, data: &[u8]) -> (r: Option<usize>)
        requires
            old(rb).wf(),
        ensures
            *final(self) == *old(self),
            final(rb).wf(),
            final(rb).reader_taken() == old(rb).reader_taken(),
            final(rb).writer_taken() == old(rb).writer_taken(),
            final(rb).read_offset() == old(rb).read_offset(),
            r is None <==> old(rb)@.len() == SIZE,
            r is None ==> final(rb)@ == old(rb)@ && final(rb).write_offset() == old(rb).write_offset(),
            r matches Some(n) ==> {
                &&& n == min_int(data@.len() as int, old(rb).write_chunk())
                &&& final(rb)@ == old(rb)@ + data@.take(n as int)
                &&& final(rb).write_offset() == (old(rb).write_offset() + n) % (SIZE as int)
            },
    {
        let ghost old_rb = *rb;
        proof {
            old_rb.lemma_layout();
        }
        let len: usize = rb.write_cnt.wrapping_sub(rb.read_cnt);
        let writable: usize = SIZE - len;
        if writable == 0 {
            return None;
        }
        let start: usize = rb.write_cnt % SIZE;
        let room: usize = SIZE - start;
        let chunk: usize = if writable < room {
            writable
        } else {
            room
        };
        let n: usize = if data.len() < chunk {
            data.len()
        } else {
            chunk
        };
        let mut j: usize = 0;
        while j < n
            invariant
                j <= n,
                start + n <= SIZE,
                rb.buffer@.len() == SIZE,
                rb.read_cnt == old_rb.read_cnt,
                rb.write_cnt == old_rb.write_cnt,
                rb.reader_active == old_rb.reader_active,
                rb.writer_active == old_rb.writer_active,
                n <= data@.len(),
                old_rb.buffer@.len() == SIZE,
                forall|i: int|
                    0 <= i < SIZE && !(start <= i < start + j) ==> rb.buffer@[i] == old_rb.buffer@[i],
                forall|i: int| 0 <= i < j ==> rb.buffer@[start + i] == data@[i],
            decreases n - j,
        {
            rb.buffer.set(start + j, data[j]);
            j += 1;
        }
        rb.write_cnt = rb.write_cnt.wrapping_add(n);
        proof {
            let s = SIZE as int;
            let r = old_rb.read_cnt as int;
            let w = old_rb.write_cnt as int;
            let l = old_rb.fill();
            assert(len == l);
            assert(rb.write_cnt == advanced(old_rb.write_cnt, n as int));
            assert(rb.fill() == l + n);
            if w < r {
                lemma_wrap_keeps_offset(r + l, SIZE);
            }
            assert((r + l) % s == start);
            assert forall|k: int| 0 <= k < l + n implies #[trigger] rb@[k] == (old_rb@ + data@.take(
                n as int,
            ))[k] by {
                if k < l {
                    let p = (r + k) % s;
                    if start <= p < start + n {
                        lemma_mod_step(r + l, p - start, s);
                        lemma_mod_distinct(r + k, r + l + (p - start), s);
                    }
                } else {
                    lemma_mod_step(r + l, k - l, s);
                }
            }
            assert(rb@ =~= old_rb@ + data@.take(n as int));
            lemma_advance_offset(old_rb.write_cnt, n as int, SIZE);
        }
        Some(n)
    }

    /// Writes as much of `s` as the buffer has room for, in one or two
    /// pieces, and returns how many bytes it wrote.
    pub fn write_str(&mut self, rb: &mut RingBuffer<SIZE>, s: &str) -> (written: usize)
        requires
            old(rb).wf(),
        ensures
            *final(self) == *old(self),
            final(rb).wf(),
            final(rb).reader_taken() == old(rb).reader_taken(),
            final(rb).writer_taken() == old(rb).writer_taken(),
            final(rb).read_offset() == old(rb).read_offset(),
            written == min_int(s.spec_bytes().len() as int, SIZE - old(rb)@.len()),
            final(rb)@ == old(rb)@ + s.spec_bytes().take(written as int),
    {
        let bytes = s.as_bytes();
        let ghost old_rb = *rb;
        let mut written: usize = 0;
        while written < bytes.len()
            invariant
                old_rb@.len() + written <= SIZE,
                rb.wf(),
                old_rb.wf(),
                bytes@ == s.spec_bytes(),
                written <= bytes@.len(),
                rb@ == old_rb@ + bytes@.take(written as int),
                rb.reader_taken() == old_rb.reader_taken(),
                rb.writer_taken() == old_rb.writer_taken(),
                rb.read_offset() == old_rb.read_offset(),
            ensures
                written == min_int(bytes@.len() as int, SIZE - old_rb@.len()),
                rb@ == old_rb@ + bytes@.take(written as int),
            decreases bytes@.len() - written,
        {
            let ghost before = *rb;
            proof {
                before.lemma_layout();
            }
            let rest = bytes.split_at(written).1;
            match self.try_write(rb, rest) {
                Some(n) => {
                    proof {
                        assert(rest@ == bytes@.skip(written as int));
                        assert(bytes@.take(written as int) + rest@.take(n as int) =~= bytes@.take(
                            written + n,
                        ));
                    }
                    proof {
                        rb.lemma_layout();
                    }
                    written = written + n;
                },
                None => {
                    break;
                },
            }
        }
        written
    }
}

impl<const SIZE: usize> RingBufferReader<SIZE> {
    /// Takes the unread bytes that follow the read offset without wrapping;
    /// `None` when the buffer is empty.
    pub fn try_read(&mut self, rb: &mut RingBuffer<SIZE>) -> (r: Option<Vec<u8>>)
        requires
            old(rb).wf(),
        ensures
            *final(self) == *old(self),
            final(rb).wf(),
            final(rb).reader_taken() == old(rb).reader_taken(),
            final(rb).writer_taken() == old(rb).writer_taken(),
            final(rb).write_offset() == old(rb).write_offset(),
            r is None <==> old(rb)@.len() == 0,
            r is None ==> final(rb)@ == old(rb)@ && final(rb).read_offset() == old(rb).read_offset(),
            r matches Some(bytes) ==> {
                &&& bytes@.len() == old(rb).read_chunk()
                &&& bytes@ == old(rb)@.take(bytes@.len() as int)
                &&& final(rb)@ == old(rb)@.skip(bytes@.len() as int)
                &&& final(rb).read_offset() == (old(rb).read_offset() + bytes@.len()) % (
                SIZE as int)
            },
    {
        let ghost old_rb = *rb;
        proof {
            old_rb.lemma_layout();
        }
        let len: usize = rb.write_cnt.wrapping_sub(rb.read_cnt);
        if len == 0 {
            return None;
        }
        let start: usize = rb.read_cnt % SIZE;
        let room: usize = SIZE - start;
        let n: usize = if len < room {
            len
        } else {
            room
        };
        let mut bytes: Vec<u8> = Vec::new();
        let mut j: usize = 0;
        while j < n
            invariant
                j <= n,
                start + n <= SIZE,
                rb.buffer@.len() == SIZE,
                bytes@.len() == j,
                forall|i: int| 0 <= i < j ==> bytes@[i] == rb.buffer@[start + i],
            decreases n - j,
        {
            bytes.push(rb.buffer[start + j]);
            j += 1;
        }
        rb.read_cnt = rb.read_cnt.wrapping_add(n);
        proof {
            let s = SIZE as int;
            let r = old_rb.read_cnt as int;
            let l = old_rb.fill();
            assert(len == l);
            assert(rb.read_cnt == advanced(old_rb.read_cnt, n as int));
            assert(rb.fill() == l - n);
            assert forall|i: int| 0 <= i < n implies #[trigger] bytes@[i] == old_rb@[i] by {
                lemma_mod_step(r, i, s);
            }
            assert(bytes@ =~= old_rb@.take(n as int));
            assert forall|k: int| 0 <= k < l - n implies #[trigger] rb@[k] == old_rb@[n + k] by {
                if r + n > usize::MAX {
                    lemma_wrap_keeps_offset(r + n + k, SIZE);
                }
            }
            assert(rb@ =~= old_rb@.skip(n as int));
            lemma_advance_offset(old_rb.read_cnt, n as int, SIZE);
        }
        Some(bytes)
    }

    /// Drops every unread byte.
    pub fn clear(&mut self, rb: &mut RingBuffer<SIZE>)
        requires
            old(rb).wf(),
        ensures
            *final(self) == *old(self),
            final(rb).wf(),
            final(rb).reader_taken() == old(rb).reader_taken(),
            final(rb).writer_taken() == old(rb).writer_taken(),
            final(rb).write_offset() == old(rb).write_offset(),
            final(rb).read_offset() == old(rb).write_offset(),
            final(rb)@ == Seq::<u8>::empty(),
    {
        rb.read_cnt = rb.write_cnt;
        assert(rb@ =~= Seq::<u8>::empty());
    }
}

} // verus!
