//! Reading and writing fixed-size little-endian values at the front of a byte buffer.
use vstd::prelude::*;

verus! {

/// The little-endian value of two bytes.
pub open spec fn le16(b0: u8, b1: u8) -> int {
    b0 + b1 * 256
}

/// The little-endian value of four bytes.
pub open spec fn le32(b0: u8, b1: u8, b2: u8, b3: u8) -> int {
    b0 + b1 * 256 + b2 * 65536 + b3 * 16777216
}

/// The two's-complement value of 16 bits.
pub open spec fn signed16(x: int) -> int {
    if x >= 32768 {
        x - 65536
    } else {
        x
    }
}

/// The two's-complement value of 8 bits.
pub open spec fn signed8(x: int) -> int {
    if x >= 128 {
        x - 256
    } else {
        x
    }
}

/// The little-endian bytes of a 32-bit value.
pub open spec fn le32_bytes(v: u32) -> Seq<u8> {
    seq![
        (v % 256) as u8,
        ((v / 256) % 256) as u8,
        ((v / 65536) % 256) as u8,
        ((v / 16777216) % 256) as u8,
    ]
}

/// Reads the little-endian `u16` at `off`.
pub fn read_u16(b: &[u8], off: usize) -> (r: u16)
    requires
        off + 2 <= b@.len(),
    ensures
        r == le16(b@[off as int], b@[off + 1]),
{
    b[off] as u16 + (b[off + 1] as u16) * 256
}

/// Reads the little-endian `u32` at `off`.
pub fn read_u32(b: &[u8], off: usize) -> (r: u32)
    requires
        off + 4 <= b@.len(),
    ensures
        r == le32(b@[off as int], b@[off + 1], b@[off + 2], b@[off + 3]),
{
    b[off] as u32 + (b[off + 1] as u32) * 256 + (b[off + 2] as u32) * 65536 + (b[off + 3] as u32)
        * 16777216
}

/// Reads the little-endian two's-complement `i16` at `off`.
pub fn read_i16(b: &[u8], off: usize) -> (r: i16)
    requires
        off + 2 <= b@.len(),
    ensures
        r == signed16(le16(b@[off as int], b@[off + 1])),
{
    let x: u16 = read_u16(b, off);
    if x >= 32768 {
        (x as i32 - 65536) as i16
    } else {
        x as i16
    }
}

/// Reads the two's-complement `i8` at `off`.
pub fn read_i8(b: &[u8], off: usize) -> (r: i8)
    requires
        off + 1 <= b@.len(),
    ensures
        r == signed8(b@[off as int] as int),
{
    let x: u8 = b[off];
    if x >= 128 {
        (x as i16 - 256) as i8
    } else {
        x as i8
    }
}

/// A value with a fixed-size little-endian byte image.
pub trait Snip: Sized {
    /// The size of the byte image.
    spec fn spec_len() -> nat;

    /// The value that `bytes` (of the size of the image) hold.
    spec fn spec_decode(bytes: Seq<u8>) -> Self;

    fn byte_len() -> (r: usize)
        ensures
            r == Self::spec_len(),
    ;

    fn decode(bytes: &[u8]) -> (r: Self)
        requires
            bytes@.len() == Self::spec_len(),
        ensures
            r == Self::spec_decode(bytes@),
    ;
}

/// A value that can also be written as its byte image.
pub trait SnipMut: Snip {
    /// The byte image of `v`.
    spec fn spec_encode(v: Self) -> Seq<u8>;

    fn encode(&self, dst: &mut [u8])
        requires
            old(dst)@.len() == Self::spec_len(),
        ensures
            final(dst)@ == Self::spec_encode(*self),
    ;
}

impl Snip for u32 {
    open spec fn spec_len() -> nat {
        4
    }

    open spec fn spec_decode(bytes: Seq<u8>) -> u32 {
        le32(bytes[0], bytes[1], bytes[2], bytes[3]) as u32
    }

    fn byte_len() -> (r: usize) {
        4
    }

    fn decode(bytes: &[u8]) -> (r: u32) {
        read_u32(bytes, 0)
    }
}

impl SnipMut for u32 {
    open spec fn spec_encode(v: u32) -> Seq<u8> {
        le32_bytes(v)
    }

    fn encode(&self, dst: &mut [u8]) {
        let v = *self;
        dst[0] = (v % 256) as u8;
        dst[1] = ((v / 256) % 256) as u8;
        dst[2] = ((v / 65536) % 256) as u8;
        dst[3] = ((v / 16777216) % 256) as u8;
        assert(dst@ == le32_bytes(v));
    }
}

/// Decoding the image of a 32-bit value gives the value back.
pub proof fn lemma_u32_roundtrip(v: u32)
    ensures
        <u32 as Snip>::spec_decode(<u32 as SnipMut>::spec_encode(v)) == v,
{
    let b = le32_bytes(v);
    assert(v == (v % 256) + ((v / 256) % 256) * 256 + ((v / 65536) % 256) * 65536 + ((v / 16777216)
        % 256) * 16777216) by (nonlinear_arith);
}

/// Splits the image of an `A` off the front of `src` and decodes it; the rest of `src`
/// is returned beside it. `None` when `src` is shorter than the image.
pub fn snip_ref<A: Snip>(src: &[u8]) -> (r: Option<(A, &[u8])>)
    ensures
        src@.len() < A::spec_len() <==> r is None,
        r matches Some((a, rest)) ==> a == A::spec_decode(src@.subrange(0, A::spec_len() as int))
            && rest@ == src@.subrange(A::spec_len() as int, src@.len() as int),
{
    let len = A::byte_len();
    if src.len() < len {
        return None;
    }
    let (dst, remainder) = src.split_at(len);
    Some((A::decode(dst), remainder))
}

/// Writes the image of `val` over the front of `src` and returns the rest of `src`.
/// `None`, with `src` unchanged, when `src` is shorter than the image.
pub fn snip_ref_mut<'a, A: SnipMut>(src: &'a mut [u8], val: &A) -> (r: Option<&'a mut [u8]>)
    ensures
        old(src)@.len() < A::spec_len() <==> r is None,
        r is None ==> final(src)@ == old(src)@,
        r matches Some(rest) ==> rest@ == old(src)@.subrange(
            A::spec_len() as int,
            old(src)@.len() as int,
        ) && final(src)@ == A::spec_encode(*val) + final(rest)@,
{
    let len = A::byte_len();
    if src.len() < len {
        return None;
    }
    let (dst, remainder) = src.split_at_mut(len);
    val.encode(dst);
    Some(remainder)
}

} // verus!
