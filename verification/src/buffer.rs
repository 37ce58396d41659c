//! Flat integer buffers and the sequential counting kernel.
//!
//! Every element is modelled by its *bit pattern*: the natural number
//! whose binary representation is the element's two's-complement
//! encoding. Counting one bits of a buffer is `pop_seq` of its
//! pattern sequence.

use vstd::prelude::*;

use crate::dtype::Dtype;
use crate::popcount::pop_nat;
use crate::popcount::pop_seq;
use crate::popcount::popcount_u64;
use crate::popcount::lemma_pop_nat_bound;

verus! {

/// Bit pattern of an unsigned 8-bit element.
pub open spec fn u8_pattern(x: u8) -> nat {
    x as nat
}

/// Bit pattern of an unsigned 16-bit element.
pub open spec fn u16_pattern(x: u16) -> nat {
    x as nat
}

/// Bit pattern of an unsigned 32-bit element.
pub open spec fn u32_pattern(x: u32) -> nat {
    x as nat
}

/// Bit pattern of an unsigned 64-bit element.
pub open spec fn u64_pattern(x: u64) -> nat {
    x as nat
}

/// Two's-complement bit pattern of a signed 8-bit element.
pub open spec fn i8_pattern(x: i8) -> nat {
    if x >= 0 {
        x as nat
    } else {
        (x + 0x100) as nat
    }
}

/// Two's-complement bit pattern of a signed 16-bit element.
pub open spec fn i16_pattern(x: i16) -> nat {
    if x >= 0 {
        x as nat
    } else {
        (x + 0x1_0000) as nat
    }
}

/// Two's-complement bit pattern of a signed 32-bit element.
pub open spec fn i32_pattern(x: i32) -> nat {
    if x >= 0 {
        x as nat
    } else {
        (x + 0x1_0000_0000) as nat
    }
}

/// Two's-complement bit pattern of a signed 64-bit element.
pub open spec fn i64_pattern(x: i64) -> nat {
    if x >= 0 {
        x as nat
    } else {
        (x + 0x1_0000_0000_0000_0000) as nat
    }
}

/// Pattern sequence of an unsigned 8-bit buffer.
pub open spec fn u8_patterns(s: Seq<u8>) -> Seq<nat> {
    s.map_values(|x: u8| u8_pattern(x))
}

/// Pattern sequence of an unsigned 16-bit buffer.
pub open spec fn u16_patterns(s: Seq<u16>) -> Seq<nat> {
    s.map_values(|x: u16| u16_pattern(x))
}

/// Pattern sequence of an unsigned 32-bit buffer.
pub open spec fn u32_patterns(s: Seq<u32>) -> Seq<nat> {
    s.map_values(|x: u32| u32_pattern(x))
}

/// Pattern sequence of an unsigned 64-bit buffer.
pub open spec fn u64_patterns(s: Seq<u64>) -> Seq<nat> {
    s.map_values(|x: u64| u64_pattern(x))
}

/// Pattern sequence of a signed 8-bit buffer.
pub open spec fn i8_patterns(s: Seq<i8>) -> Seq<nat> {
    s.map_values(|x: i8| i8_pattern(x))
}

/// Pattern sequence of a signed 16-bit buffer.
pub open spec fn i16_patterns(s: Seq<i16>) -> Seq<nat> {
    s.map_values(|x: i16| i16_pattern(x))
}

/// Pattern sequence of a signed 32-bit buffer.
pub open spec fn i32_patterns(s: Seq<i32>) -> Seq<nat> {
    s.map_values(|x: i32| i32_pattern(x))
}

/// Pattern sequence of a signed 64-bit buffer.
pub open spec fn i64_patterns(s: Seq<i64>) -> Seq<nat> {
    s.map_values(|x: i64| i64_pattern(x))
}

/// A flat, contiguous run of elements of one supported integer type,
/// in row-major order.
pub enum IntBuffer {
    U8(Vec<u8>),
    U16(Vec<u16>),
    U32(Vec<u32>),
    U64(Vec<u64>),
    I8(Vec<i8>),
    I16(Vec<i16>),
    I32(Vec<i32>),
    I64(Vec<i64>),
}

impl IntBuffer {
    /// The bit patterns of the elements, in buffer order.
    pub open spec fn patterns(self) -> Seq<nat> {
        match self {
            IntBuffer::U8(v) => u8_patterns(v@),
            IntBuffer::U16(v) => u16_patterns(v@),
            IntBuffer::U32(v) => u32_patterns(v@),
            IntBuffer::U64(v) => u64_patterns(v@),
            IntBuffer::I8(v) => i8_patterns(v@),
            IntBuffer::I16(v) => i16_patterns(v@),
            IntBuffer::I32(v) => i32_patterns(v@),
            IntBuffer::I64(v) => i64_patterns(v@),
        }
    }

    /// Total number of one bits across the buffer.
    pub open spec fn pop(self) -> nat {
        pop_seq(self.patterns())
    }

    /// Number of elements.
    pub open spec fn spec_len(self) -> nat {
        self.patterns().len()
    }

    /// Bit width of one element.
    pub open spec fn width_spec(self) -> nat {
        match self {
            IntBuffer::U8(_) => 8,
            IntBuffer::U16(_) => 16,
            IntBuffer::U32(_) => 32,
            IntBuffer::U64(_) => 64,
            IntBuffer::I8(_) => 8,
            IntBuffer::I16(_) => 16,
            IntBuffer::I32(_) => 32,
            IntBuffer::I64(_) => 64,
        }
    }

    /// The element-type tag this buffer carries data for.
    pub open spec fn dtype_spec(self) -> Dtype {
        match self {
            IntBuffer::U8(_) => Dtype::UInt8,
            IntBuffer::U16(_) => Dtype::UInt16,
            IntBuffer::U32(_) => Dtype::UInt32,
            IntBuffer::U64(_) => Dtype::UInt64,
            IntBuffer::I8(_) => Dtype::Int8,
            IntBuffer::I16(_) => Dtype::Int16,
            IntBuffer::I32(_) => Dtype::Int32,
            IntBuffer::I64(_) => Dtype::Int64,
        }
    }

    /// Number of elements in the buffer.
    pub fn len(&self) -> (n: usize)
        ensures
            n == self.spec_len(),
    {
        match self {
            IntBuffer::U8(v) => v.len(),
            IntBuffer::U16(v) => v.len(),
            IntBuffer::U32(v) => v.len(),
            IntBuffer::U64(v) => v.len(),
            IntBuffer::I8(v) => v.len(),
            IntBuffer::I16(v) => v.len(),
            IntBuffer::I32(v) => v.len(),
            IntBuffer::I64(v) => v.len(),
        }
    }

    /// The element-type tag of this buffer.
    pub fn dtype(&self) -> (d: Dtype)
        ensures
            d == self.dtype_spec(),
    {
        match self {
            IntBuffer::U8(_) => Dtype::UInt8,
            IntBuffer::U16(_) => Dtype::UInt16,
            IntBuffer::U32(_) => Dtype::UInt32,
            IntBuffer::U64(_) => Dtype::UInt64,
            IntBuffer::I8(_) => Dtype::Int8,
            IntBuffer::I16(_) => Dtype::Int16,
            IntBuffer::I32(_) => Dtype::Int32,
            IntBuffer::I64(_) => Dtype::Int64,
        }
    }
}

/// Law: a buffer whose elements are all zero counts zero one bits,
/// whatever its type and length. An element is zero exactly when its
/// bit pattern is zero.
pub proof fn lemma_count_all_zero(b: IntBuffer)
    requires
        forall|i: int| 0 <= i < b.patterns().len() ==> b.patterns()[i] == 0,
    ensures
        b.pop() == 0,
{
    crate::popcount::lemma_pop_seq_zero(b.patterns());
}

/// Law: a buffer of `n` elements whose every bit is set counts
/// exactly `n` times the element width.
pub proof fn lemma_count_all_ones(b: IntBuffer)
    requires
        forall|i: int|
            0 <= i < b.patterns().len() ==> b.patterns()[i]
                == vstd::arithmetic::power2::pow2(b.width_spec()) - 1,
    ensures
        b.pop() == b.spec_len() * b.width_spec(),
{
    crate::popcount::lemma_pop_seq_all_ones(b.patterns(), b.width_spec());
}

/// Counts the one bits of one unsigned 8-bit element.
pub(crate) fn element_count_u8(x: u8) -> (r: u128)
    ensures
        r == pop_nat(u8_pattern(x)),
{
    popcount_u64(x as u64) as u128
}

/// Counts the one bits of one signed 8-bit element's two's-complement
/// pattern.
pub(crate) fn element_count_i8(x: i8) -> (r: u128)
    ensures
        r == pop_nat(i8_pattern(x)),
{
    let p: u8 = if x >= 0 {
        x as u8
    } else {
        ((x as i16) + 0x100) as u8
    };
    popcount_u64(p as u64) as u128
}

/// Counts the one bits across a flat unsigned 8-bit buffer,
/// sequentially.
pub fn count_ones_u8(data: &[u8]) -> (r: u128)
    ensures
        r == pop_seq(u8_patterns(data@)),
{
    let ghost pats = u8_patterns(data@);
    let mut total: u128 = 0;
    let mut i: usize = 0;
    while i < data.len()
        invariant
            i <= pats.len(),
            pats == u8_patterns(data@),
            total == pop_seq(pats.take(i as int)),
            total <= 64 * i,
        decreases pats.len() - i,
    {
        let c = element_count_u8(data[i]);
        proof {
            vstd::arithmetic::power2::lemma2_to64();
            lemma_pop_nat_bound(u8_pattern(data@[i as int]), 64);
            assert(pats.take(i + 1).drop_last() =~= pats.take(i as int));
            assert(pats.take(i + 1).last() == pats[i as int]);
        }
        total = total + c;
        i = i + 1;
    }
    proof {
        assert(pats.take(pats.len() as int) =~= pats);
    }
    total
}

/// Counts the one bits across a flat signed 8-bit buffer,
/// sequentially.
pub fn count_ones_i8(data: &[i8]) -> (r: u128)
    ensures
        r == pop_seq(i8_patterns(data@)),
{
    let ghost pats = i8_patterns(data@);
    let mut total: u128 = 0;
    let mut i: usize = 0;
    while i < data.len()
        invariant
            i <= pats.len(),
            pats == i8_patterns(data@),
            total == pop_seq(pats.take(i as int)),
            total <= 64 * i,
        decreases pats.len() - i,
    {
        let c = element_count_i8(data[i]);
        proof {
            vstd::arithmetic::power2::lemma2_to64();
            lemma_pop_nat_bound(i8_pattern(data@[i as int]), 64);
            assert(pats.take(i + 1).drop_last() =~= pats.take(i as int));
            assert(pats.take(i + 1).last() == pats[i as int]);
        }
        total = total + c;
        i = i + 1;
    }
    proof {
        assert(pats.take(pats.len() as int) =~= pats);
    }
    total
}

/// Counts the one bits of one unsigned 16-bit element.
pub(crate) fn element_count_u16(x: u16) -> (r: u128)
    ensures
        r == pop_nat(u16_pattern(x)),
{
    popcount_u64(x as u64) as u128
}

/// Counts the one bits of one unsigned 32-bit element.
pub(crate) fn element_count_u32(x: u32) -> (r: u128)
    ensures
        r == pop_nat(u32_pattern(x)),
{
    popcount_u64(x as u64) as u128
}

/// Counts the one bits of one unsigned 64-bit element.
pub(crate) fn element_count_u64(x: u64) -> (r: u128)
    ensures
        r == pop_nat(u64_pattern(x)),
{
    popcount_u64(x as u64) as u128
}

/// Counts the one bits of one signed 16-bit element's two's-complement
/// pattern.
pub(crate) fn element_count_i16(x: i16) -> (r: u128)
    ensures
        r == pop_nat(i16_pattern(x)),
{
    let p: u16 = if x >= 0 {
        x as u16
    } else {
        ((x as i32) + 0x1_0000) as u16
    };
    popcount_u64(p as u64) as u128
}

/// Counts the one bits of one signed 32-bit element's two's-complement
/// pattern.
pub(crate) fn element_count_i32(x: i32) -> (r: u128)
    ensures
        r == pop_nat(i32_pattern(x)),
{
    let p: u32 = if x >= 0 {
        x as u32
    } else {
        ((x as i64) + 0x1_0000_0000) as u32
    };
    popcount_u64(p as u64) as u128
}

/// Counts the one bits of one signed 64-bit element's two's-complement
/// pattern.
pub(crate) fn element_count_i64(x: i64) -> (r: u128)
    ensures
        r == pop_nat(i64_pattern(x)),
{
    let p: u64 = if x >= 0 {
        x as u64
    } else {
        ((x as i128) + 0x1_0000_0000_0000_0000) as u64
    };
    popcount_u64(p as u64) as u128
}

/// Counts the one bits across a flat unsigned 16-bit buffer,
/// sequentially.
pub fn count_ones_u16(data: &[u16]) -> (r: u128)
    ensures
        r == pop_seq(u16_patterns(data@)),
{
    let ghost pats = u16_patterns(data@);
    let mut total: u128 = 0;
    let mut i: usize = 0;
    while i < data.len()
        invariant
            i <= pats.len(),
            pats == u16_patterns(data@),
            total == pop_seq(pats.take(i as int)),
            total <= 64 * i,
        decreases pats.len() - i,
    {
        let c = element_count_u16(data[i]);
        proof {
            vstd::arithmetic::power2::lemma2_to64();
            lemma_pop_nat_bound(u16_pattern(data@[i as int]), 64);
            assert(pats.take(i + 1).drop_last() =~= pats.take(i as int));
            assert(pats.take(i + 1).last() == pats[i as int]);
        }
        total = total + c;
        i = i + 1;
    }
    proof {
        assert(pats.take(pats.len() as int) =~= pats);
    }
    total
}

/// Counts the one bits across a flat unsigned 32-bit buffer,
/// sequentially.
pub fn count_ones_u32(data: &[u32]) -> (r: u128)
    ensures
        r == pop_seq(u32_patterns(data@)),
{
    let ghost pats = u32_patterns(data@);
    let mut total: u128 = 0;
    let mut i: usize = 0;
    while i < data.len()
        invariant
            i <= pats.len(),
            pats == u32_patterns(data@),
            total == pop_seq(pats.take(i as int)),
            total <= 64 * i,
        decreases pats.len() - i,
    {
        let c = element_count_u32(data[i]);
        proof {
            vstd::arithmetic::power2::lemma2_to64();
            lemma_pop_nat_bound(u32_pattern(data@[i as int]), 64);
            assert(pats.take(i + 1).drop_last() =~= pats.take(i as int));
            assert(pats.take(i + 1).last() == pats[i as int]);
        }
        total = total + c;
        i = i + 1;
    }
    proof {
        assert(pats.take(pats.len() as int) =~= pats);
    }
    total
}

/// Counts the one bits across a flat unsigned 64-bit buffer,
/// sequentially.
pub fn count_ones_u64(data: &[u64]) -> (r: u128)
    ensures
        r == pop_seq(u64_patterns(data@)),
{
    let ghost pats = u64_patterns(data@);
    let mut total: u128 = 0;
    let mut i: usize = 0;
    while i < data.len()
        invariant
            i <= pats.len(),
            pats == u64_patterns(data@),
            total == pop_seq(pats.take(i as int)),
            total <= 64 * i,
        decreases pats.len() - i,
    {
        let c = element_count_u64(data[i]);
        proof {
            vstd::arithmetic::power2::lemma2_to64();
            lemma_pop_nat_bound(u64_pattern(data@[i as int]), 64);
            assert(pats.take(i + 1).drop_last() =~= pats.take(i as int));
            assert(pats.take(i + 1).last() == pats[i as int]);
        }
        total = total + c;
        i = i + 1;
    }
    proof {
        assert(pats.take(pats.len() as int) =~= pats);
    }
    total
}

/// Counts the one bits across a flat signed 16-bit buffer,
/// sequentially.
pub fn count_ones_i16(data: &[i16]) -> (r: u128)
    ensures
        r == pop_seq(i16_patterns(data@)),
{
    let ghost pats = i16_patterns(data@);
    let mut total: u128 = 0;
    let mut i: usize = 0;
    while i < data.len()
        invariant
            i <= pats.len(),
            pats == i16_patterns(data@),
            total == pop_seq(pats.take(i as int)),
            total <= 64 * i,
        decreases pats.len() - i,
    {
        let c = element_count_i16(data[i]);
        proof {
            vstd::arithmetic::power2::lemma2_to64();
            lemma_pop_nat_bound(i16_pattern(data@[i as int]), 64);
            assert(pats.take(i + 1).drop_last() =~= pats.take(i as int));
            assert(pats.take(i + 1).last() == pats[i as int]);
        }
        total = total + c;
        i = i + 1;
    }
    proof {
        assert(pats.take(pats.len() as int) =~= pats);
    }
    total
}

/// Counts the one bits across a flat signed 32-bit buffer,
/// sequentially.
pub fn count_ones_i32(data: &[i32]) -> (r: u128)
    ensures
        r == pop_seq(i32_patterns(data@)),
{
    let ghost pats = i32_patterns(data@);
    let mut total: u128 = 0;
    let mut i: usize = 0;
    while i < data.len()
        invariant
            i <= pats.len(),
            pats == i32_patterns(data@),
            total == pop_seq(pats.take(i as int)),
            total <= 64 * i,
        decreases pats.len() - i,
    {
        let c = element_count_i32(data[i]);
        proof {
            vstd::arithmetic::power2::lemma2_to64();
            lemma_pop_nat_bound(i32_pattern(data@[i as int]), 64);
            assert(pats.take(i + 1).drop_last() =~= pats.take(i as int));
            assert(pats.take(i + 1).last() == pats[i as int]);
        }
        total = total + c;
        i = i + 1;
    }
    proof {
        assert(pats.take(pats.len() as int) =~= pats);
    }
    total
}

/// Counts the one bits across a flat signed 64-bit buffer,
/// sequentially.
pub fn count_ones_i64(data: &[i64]) -> (r: u128)
    ensures
        r == pop_seq(i64_patterns(data@)),
{
    let ghost pats = i64_patterns(data@);
    let mut total: u128 = 0;
    let mut i: usize = 0;
    while i < data.len()
        invariant
            i <= pats.len(),
            pats == i64_patterns(data@),
            total == pop_seq(pats.take(i as int)),
            total <= 64 * i,
        decreases pats.len() - i,
    {
        let c = element_count_i64(data[i]);
        proof {
            vstd::arithmetic::power2::lemma2_to64();
            lemma_pop_nat_bound(i64_pattern(data@[i as int]), 64);
            assert(pats.take(i + 1).drop_last() =~= pats.take(i as int));
            assert(pats.take(i + 1).last() == pats[i as int]);
        }
        total = total + c;
        i = i + 1;
    }
    proof {
        assert(pats.take(pats.len() as int) =~= pats);
    }
    total
}

/// Counts the one bits across a buffer, element by element,
/// sequentially.
pub fn count_buffer(buf: &IntBuffer) -> (r: u128)
    ensures
        r == buf.pop(),
{
    match buf {
        IntBuffer::U8(v) => count_ones_u8(v.as_slice()),
        IntBuffer::U16(v) => count_ones_u16(v.as_slice()),
        IntBuffer::U32(v) => count_ones_u32(v.as_slice()),
        IntBuffer::U64(v) => count_ones_u64(v.as_slice()),
        IntBuffer::I8(v) => count_ones_i8(v.as_slice()),
        IntBuffer::I16(v) => count_ones_i16(v.as_slice()),
        IntBuffer::I32(v) => count_ones_i32(v.as_slice()),
        IntBuffer::I64(v) => count_ones_i64(v.as_slice()),
    }
}

} // verus!
