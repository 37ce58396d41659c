//! The callable surface: dispatch on what the host declares about an
//! array, reject what cannot be counted, and count the rest.

use vstd::prelude::*;

use crate::buffer::IntBuffer;
use crate::buffer::count_buffer;
use crate::dtype::CountError;
use crate::dtype::Dtype;
use crate::parallel::count_buffer_parallel;

verus! {

/// What the host declares about one of its arrays: the element type,
/// whether the memory layout admits one flat gap-free run of the
/// elements, and — in the countable case — the elements themselves,
/// in row-major order.
pub struct ArrayView {
    /// The element type the host declares.
    pub dtype: Dtype,
    /// Whether a flat contiguous view of the elements exists.
    pub contiguous: bool,
    /// The flat element data; present exactly when the element type
    /// is supported and the layout is contiguous.
    pub data: Option<IntBuffer>,
}

impl ArrayView {
    /// A view is well formed when it carries data exactly in the
    /// countable case and the data agrees with the declared element
    /// type.
    pub open spec fn wf(self) -> bool {
        &&& (self.data is Some <==> (self.dtype.is_supported_spec() && self.contiguous))
        &&& (self.data matches Some(b) ==> b.dtype_spec() == self.dtype)
    }

    /// The view of an array of a supported element type whose
    /// elements stand in one flat contiguous run.
    pub fn flat(buf: IntBuffer) -> (v: ArrayView)
        ensures
            v.wf(),
            v.dtype == buf.dtype_spec(),
            v.contiguous,
            v.data == Some(buf),
    {
        let d = buf.dtype();
        ArrayView { dtype: d, contiguous: true, data: Some(buf) }
    }

    /// The view of an array of a supported element type that admits
    /// no flat contiguous run of its elements (a strided or
    /// transposed layout).
    pub fn strided(d: Dtype) -> (v: ArrayView)
        requires
            d.is_supported_spec(),
        ensures
            v.wf(),
            v.dtype == d,
            !v.contiguous,
            v.data is None,
    {
        ArrayView { dtype: d, contiguous: false, data: None }
    }

    /// The view of an array whose element type the kernel does not
    /// support.
    pub fn unsupported(d: Dtype, contiguous: bool) -> (v: ArrayView)
        requires
            !d.is_supported_spec(),
        ensures
            v.wf(),
            v.dtype == d,
            v.contiguous == contiguous,
            v.data is None,
    {
        ArrayView { dtype: d, contiguous, data: None }
    }
}

/// What counting a view returns: the total bit count of the data
/// when the element type is supported and the layout is contiguous,
/// otherwise the error naming the first check that failed — the
/// element type is checked before the layout.
pub open spec fn count_ones_spec(v: ArrayView) -> Result<u128, CountError> {
    if !v.dtype.is_supported_spec() {
        Err(CountError::UnsupportedElementType)
    } else if !v.contiguous {
        Err(CountError::NonContiguousBuffer)
    } else {
        Ok(v.data->Some_0.pop() as u128)
    }
}

/// Counts the one bits across the array a view describes,
/// sequentially.
///
/// Returns `Ok` with the total exactly when the element type is one
/// of the eight supported integer types and the elements stand in
/// one flat contiguous run; otherwise the matching error. Validation
/// precedes computation: a rejected view is never partially counted.
pub fn count_ones(view: &ArrayView) -> (r: Result<u128, CountError>)
    requires
        view.wf(),
    ensures
        r == count_ones_spec(*view),
        r is Ok <==> (view.dtype.is_supported_spec() && view.contiguous),
{
    if !view.dtype.is_supported() {
        Err(CountError::UnsupportedElementType)
    } else if !view.contiguous {
        Err(CountError::NonContiguousBuffer)
    } else {
        match &view.data {
            Some(buf) => Ok(count_buffer(buf)),
            None => vstd::pervasive::unreached(),
        }
    }
}

/// Counts the one bits across the array a view describes, fanning
/// the elements out to worker threads; returns exactly what
/// `count_ones` returns.
pub fn count_ones_parallel(view: &ArrayView) -> (r: Result<u128, CountError>)
    requires
        view.wf(),
    ensures
        r == count_ones_spec(*view),
        r is Ok <==> (view.dtype.is_supported_spec() && view.contiguous),
{
    if !view.dtype.is_supported() {
        Err(CountError::UnsupportedElementType)
    } else if !view.contiguous {
        Err(CountError::NonContiguousBuffer)
    } else {
        match &view.data {
            Some(buf) => Ok(count_buffer_parallel(buf)),
            None => vstd::pervasive::unreached(),
        }
    }
}

/// Law: counting is deterministic. Any two results that meet the
/// postcondition of `count_ones` or of `count_ones_parallel` on the
/// same view — repeated calls included — are equal.
pub proof fn lemma_count_ones_deterministic(
    v: ArrayView,
    r1: Result<u128, CountError>,
    r2: Result<u128, CountError>,
)
    requires
        r1 == count_ones_spec(v),
        r2 == count_ones_spec(v),
    ensures
        r1 == r2,
{
}

/// The version identifier exposed alongside the callable for host
/// introspection.
pub fn version() -> (v: &'static str)
    ensures
        v@ == "0.1.0"@,
{
    "0.1.0"
}

} // verus!
