//! Element-type tags and the errors the kernel reports.

use vstd::prelude::*;

verus! {

/// The element type a host buffer declares for its contents.
///
/// The kernel counts bits only for the eight fixed-width integer
/// types; the remaining tags describe buffers it must reject.
#[derive(Clone, Copy, PartialEq, Eq, Structural, Debug)]
pub enum Dtype {
    UInt8,
    UInt16,
    UInt32,
    UInt64,
    Int8,
    Int16,
    Int32,
    Int64,
    Float32,
    Float64,
    Bool,
    Other,
}

impl Dtype {
    /// Whether the kernel can count a buffer of this element type.
    pub open spec fn is_supported_spec(self) -> bool {
        match self {
            Dtype::UInt8 => true,
            Dtype::UInt16 => true,
            Dtype::UInt32 => true,
            Dtype::UInt64 => true,
            Dtype::Int8 => true,
            Dtype::Int16 => true,
            Dtype::Int32 => true,
            Dtype::Int64 => true,
            Dtype::Float32 => false,
            Dtype::Float64 => false,
            Dtype::Bool => false,
            Dtype::Other => false,
        }
    }

    /// Decides whether this element type is one of the eight
    /// supported integer types.
    pub fn is_supported(&self) -> (b: bool)
        ensures
            b == self.is_supported_spec(),
    {
        match self {
            Dtype::UInt8 => true,
            Dtype::UInt16 => true,
            Dtype::UInt32 => true,
            Dtype::UInt64 => true,
            Dtype::Int8 => true,
            Dtype::Int16 => true,
            Dtype::Int32 => true,
            Dtype::Int64 => true,
            Dtype::Float32 => false,
            Dtype::Float64 => false,
            Dtype::Bool => false,
            Dtype::Other => false,
        }
    }
}

/// Why the kernel rejected a buffer.
#[derive(Clone, Copy, PartialEq, Eq, Structural, Debug)]
pub enum CountError {
    /// The element type is not among the supported integer types.
    UnsupportedElementType,
    /// The buffer admits no flat contiguous view of its elements.
    NonContiguousBuffer,
}

impl CountError {
    /// A diagnostic line for this error; the unsupported-type message
    /// names the whole supported set.
    pub fn message(&self) -> (m: &'static str)
        ensures
            *self == CountError::UnsupportedElementType ==> m@ == (
            "Unsupported array dtype. Supported dtypes are: uint8, uint16, uint32, uint64, int8, int16, int32, int64")@,
            *self == CountError::NonContiguousBuffer ==> m@ == (
            "Array is not a contiguous buffer of its element type")@,
    {
        match self {
            CountError::UnsupportedElementType => {
                "Unsupported array dtype. Supported dtypes are: uint8, uint16, uint32, uint64, int8, int16, int32, int64"
            },
            CountError::NonContiguousBuffer => {
                "Array is not a contiguous buffer of its element type"
            },
        }
    }
}

} // verus!
