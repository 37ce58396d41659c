//! The parallel counting kernel: rayon fans the elements out to
//! worker threads and sums the per-element bit counts back into one
//! total, exactly as the sequential kernel does.

use vstd::prelude::*;

use rayon::iter::IntoParallelRefIterator;
use rayon::iter::ParallelIterator;

use crate::buffer::IntBuffer;
use crate::buffer::element_count_u8;
use crate::buffer::element_count_u16;
use crate::buffer::element_count_u32;
use crate::buffer::element_count_u64;
use crate::buffer::element_count_i8;
use crate::buffer::element_count_i16;
use crate::buffer::element_count_i32;
use crate::buffer::element_count_i64;
use crate::buffer::u8_patterns;
use crate::buffer::u16_patterns;
use crate::buffer::u32_patterns;
use crate::buffer::u64_patterns;
use crate::buffer::i8_patterns;
use crate::buffer::i16_patterns;
use crate::buffer::i32_patterns;
use crate::buffer::i64_patterns;
use crate::popcount::pop_seq;

verus! {

/// Relies on rayon's `par_iter`, `map` and `sum`: the parallel
/// iterator over a slice yields exactly its elements, `map` applies
/// the closure to each, and `sum` reduces the closure's results with
/// `+`, which is associative and commutative on `u128`, so the order
/// rayon reduces in cannot change the total. The closure is the
/// verified per-element counter, so the reduction returns the bit
/// count of the whole slice.
#[verifier::external_body]
fn par_count_u8(data: &[u8]) -> (r: u128)
    ensures
        r == pop_seq(u8_patterns(data@)),
{
    data.par_iter().map(|x: &u8| element_count_u8(*x)).sum()
}

/// Relies on rayon's `par_iter`, `map` and `sum`: the parallel
/// iterator over a slice yields exactly its elements, `map` applies
/// the closure to each, and `sum` reduces the closure's results with
/// `+`, which is associative and commutative on `u128`, so the order
/// rayon reduces in cannot change the total. The closure is the
/// verified per-element counter, so the reduction returns the bit
/// count of the whole slice.
#[verifier::external_body]
fn par_count_u16(data: &[u16]) -> (r: u128)
    ensures
        r == pop_seq(u16_patterns(data@)),
{
    data.par_iter().map(|x: &u16| element_count_u16(*x)).sum()
}

/// Relies on rayon's `par_iter`, `map` and `sum`: the parallel
/// iterator over a slice yields exactly its elements, `map` applies
/// the closure to each, and `sum` reduces the closure's results with
/// `+`, which is associative and commutative on `u128`, so the order
/// rayon reduces in cannot change the total. The closure is the
/// verified per-element counter, so the reduction returns the bit
/// count of the whole slice.
#[verifier::external_body]
fn par_count_u32(data: &[u32]) -> (r: u128)
    ensures
        r == pop_seq(u32_patterns(data@)),
{
    data.par_iter().map(|x: &u32| element_count_u32(*x)).sum()
}

/// Relies on rayon's `par_iter`, `map` and `sum`: the parallel
/// iterator over a slice yields exactly its elements, `map` applies
/// the closure to each, and `sum` reduces the closure's results with
/// `+`, which is associative and commutative on `u128`, so the order
/// rayon reduces in cannot change the total. The closure is the
/// verified per-element counter, so the reduction returns the bit
/// count of the whole slice.
#[verifier::external_body]
fn par_count_u64(data: &[u64]) -> (r: u128)
    ensures
        r == pop_seq(u64_patterns(data@)),
{
    data.par_iter().map(|x: &u64| element_count_u64(*x)).sum()
}

/// Relies on rayon's `par_iter`, `map` and `sum`: the parallel
/// iterator over a slice yields exactly its elements, `map` applies
/// the closure to each, and `sum` reduces the closure's results with
/// `+`, which is associative and commutative on `u128`, so the order
/// rayon reduces in cannot change the total. The closure is the
/// verified per-element counter, so the reduction returns the bit
/// count of the whole slice.
#[verifier::external_body]
fn par_count_i8(data: &[i8]) -> (r: u128)
    ensures
        r == pop_seq(i8_patterns(data@)),
{
    data.par_iter().map(|x: &i8| element_count_i8(*x)).sum()
}

/// Relies on rayon's `par_iter`, `map` and `sum`: the parallel
/// iterator over a slice yields exactly its elements, `map` applies
/// the closure to each, and `sum` reduces the closure's results with
/// `+`, which is associative and commutative on `u128`, so the order
/// rayon reduces in cannot change the total. The closure is the
/// verified per-element counter, so the reduction returns the bit
/// count of the whole slice.
#[verifier::external_body]
fn par_count_i16(data: &[i16]) -> (r: u128)
    ensures
        r == pop_seq(i16_patterns(data@)),
{
    data.par_iter().map(|x: &i16| element_count_i16(*x)).sum()
}

/// Relies on rayon's `par_iter`, `map` and `sum`: the parallel
/// iterator over a slice yields exactly its elements, `map` applies
/// the closure to each, and `sum` reduces the closure's results with
/// `+`, which is associative and commutative on `u128`, so the order
/// rayon reduces in cannot change the total. The closure is the
/// verified per-element counter, so the reduction returns the bit
/// count of the whole slice.
#[verifier::external_body]
fn par_count_i32(data: &[i32]) -> (r: u128)
    ensures
        r == pop_seq(i32_patterns(data@)),
{
    data.par_iter().map(|x: &i32| element_count_i32(*x)).sum()
}

/// Relies on rayon's `par_iter`, `map` and `sum`: the parallel
/// iterator over a slice yields exactly its elements, `map` applies
/// the closure to each, and `sum` reduces the closure's results with
/// `+`, which is associative and commutative on `u128`, so the order
/// rayon reduces in cannot change the total. The closure is the
/// verified per-element counter, so the reduction returns the bit
/// count of the whole slice.
#[verifier::external_body]
fn par_count_i64(data: &[i64]) -> (r: u128)
    ensures
        r == pop_seq(i64_patterns(data@)),
{
    data.par_iter().map(|x: &i64| element_count_i64(*x)).sum()
}

/// Counts the one bits across a buffer by fanning its elements out
/// to worker threads and summing their partial counts; returns the
/// same total as the sequential kernel.
pub fn count_buffer_parallel(buf: &IntBuffer) -> (r: u128)
    ensures
        r == buf.pop(),
{
    match buf {
        IntBuffer::U8(v) => par_count_u8(v.as_slice()),
        IntBuffer::U16(v) => par_count_u16(v.as_slice()),
        IntBuffer::U32(v) => par_count_u32(v.as_slice()),
        IntBuffer::U64(v) => par_count_u64(v.as_slice()),
        IntBuffer::I8(v) => par_count_i8(v.as_slice()),
        IntBuffer::I16(v) => par_count_i16(v.as_slice()),
        IntBuffer::I32(v) => par_count_i32(v.as_slice()),
        IntBuffer::I64(v) => par_count_i64(v.as_slice()),
    }
}

} // verus!
