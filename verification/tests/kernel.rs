use bit_counter::ArrayView;
use bit_counter::CountError;
use bit_counter::Dtype;
use bit_counter::IntBuffer;
use bit_counter::count_ones;
use bit_counter::count_ones_parallel;
use bit_counter::version;

#[test]
fn byte_scenario() {
    let view = ArrayView::flat(IntBuffer::U8(vec![0b0000_0000, 0b1111_1111, 0b1010_1010]));
    assert_eq!(count_ones(&view), Ok(12));
}

#[test]
fn u64_scenario() {
    let view = ArrayView::flat(IntBuffer::U64(vec![1, 2, 3]));
    assert_eq!(count_ones(&view), Ok(4));
}

#[test]
fn i8_minus_one_scenario() {
    let view = ArrayView::flat(IntBuffer::I8(vec![-1]));
    assert_eq!(count_ones(&view), Ok(8));
    let view = ArrayView::flat(IntBuffer::I8(vec![-1, 3]));
    assert_eq!(count_ones(&view), Ok(10));
}

#[test]
fn every_width_counts() {
    assert_eq!(count_ones(&ArrayView::flat(IntBuffer::U8(vec![0x0F, 0xF0]))), Ok(8));
    assert_eq!(count_ones(&ArrayView::flat(IntBuffer::U16(vec![0x8001]))), Ok(2));
    assert_eq!(count_ones(&ArrayView::flat(IntBuffer::U32(vec![0xDEAD_BEEF]))), Ok(24));
    assert_eq!(count_ones(&ArrayView::flat(IntBuffer::U64(vec![u64::MAX - 1]))), Ok(63));
    assert_eq!(count_ones(&ArrayView::flat(IntBuffer::I8(vec![-128, 127]))), Ok(8));
    assert_eq!(count_ones(&ArrayView::flat(IntBuffer::I16(vec![-32768, 255]))), Ok(9));
    assert_eq!(count_ones(&ArrayView::flat(IntBuffer::I32(vec![-2, 2]))), Ok(32));
    assert_eq!(count_ones(&ArrayView::flat(IntBuffer::I64(vec![i64::MIN, 1]))), Ok(2));
}

#[test]
fn every_width_counts_parallel() {
    assert_eq!(count_ones_parallel(&ArrayView::flat(IntBuffer::U8(vec![0x0F, 0xF0]))), Ok(8));
    assert_eq!(count_ones_parallel(&ArrayView::flat(IntBuffer::U16(vec![0x8001]))), Ok(2));
    assert_eq!(
        count_ones_parallel(&ArrayView::flat(IntBuffer::U32(vec![0xDEAD_BEEF]))),
        Ok(24)
    );
    assert_eq!(
        count_ones_parallel(&ArrayView::flat(IntBuffer::U64(vec![u64::MAX - 1]))),
        Ok(63)
    );
    assert_eq!(count_ones_parallel(&ArrayView::flat(IntBuffer::I8(vec![-128, 127]))), Ok(8));
    assert_eq!(count_ones_parallel(&ArrayView::flat(IntBuffer::I16(vec![-32768, 255]))), Ok(9));
    assert_eq!(count_ones_parallel(&ArrayView::flat(IntBuffer::I32(vec![-2, 2]))), Ok(32));
    assert_eq!(count_ones_parallel(&ArrayView::flat(IntBuffer::I64(vec![i64::MIN, 1]))), Ok(2));
}

#[test]
fn empty_buffers_count_zero() {
    assert_eq!(count_ones(&ArrayView::flat(IntBuffer::U8(vec![]))), Ok(0));
    assert_eq!(count_ones(&ArrayView::flat(IntBuffer::I64(vec![]))), Ok(0));
    assert_eq!(count_ones_parallel(&ArrayView::flat(IntBuffer::U64(vec![]))), Ok(0));
}

#[test]
fn unsupported_dtype_is_rejected() {
    for dtype in [Dtype::Float32, Dtype::Float64, Dtype::Bool, Dtype::Other] {
        let view = ArrayView::unsupported(dtype, true);
        assert_eq!(count_ones(&view), Err(CountError::UnsupportedElementType));
        assert_eq!(count_ones_parallel(&view), Err(CountError::UnsupportedElementType));
    }
}

#[test]
fn non_contiguous_is_rejected() {
    for dtype in [
        Dtype::UInt8,
        Dtype::UInt16,
        Dtype::UInt32,
        Dtype::UInt64,
        Dtype::Int8,
        Dtype::Int16,
        Dtype::Int32,
        Dtype::Int64,
    ] {
        let view = ArrayView::strided(dtype);
        assert_eq!(count_ones(&view), Err(CountError::NonContiguousBuffer));
        assert_eq!(count_ones_parallel(&view), Err(CountError::NonContiguousBuffer));
    }
}

#[test]
fn unsupported_dtype_wins_over_layout() {
    let view = ArrayView::unsupported(Dtype::Float64, false);
    assert_eq!(count_ones(&view), Err(CountError::UnsupportedElementType));
}

#[test]
fn error_messages_name_the_problem() {
    let m = CountError::UnsupportedElementType.message();
    assert!(m.contains("uint8"));
    assert!(m.contains("int64"));
    assert_eq!(
        m,
        "Unsupported array dtype. Supported dtypes are: uint8, uint16, uint32, uint64, int8, int16, int32, int64"
    );
    assert_eq!(
        CountError::NonContiguousBuffer.message(),
        "Array is not a contiguous buffer of its element type"
    );
}

#[test]
fn version_is_exposed() {
    assert_eq!(version(), "0.1.0");
}

#[test]
fn supported_set_is_the_eight_integer_types() {
    assert!(Dtype::UInt8.is_supported());
    assert!(Dtype::UInt16.is_supported());
    assert!(Dtype::UInt32.is_supported());
    assert!(Dtype::UInt64.is_supported());
    assert!(Dtype::Int8.is_supported());
    assert!(Dtype::Int16.is_supported());
    assert!(Dtype::Int32.is_supported());
    assert!(Dtype::Int64.is_supported());
    assert!(!Dtype::Float32.is_supported());
    assert!(!Dtype::Float64.is_supported());
    assert!(!Dtype::Bool.is_supported());
    assert!(!Dtype::Other.is_supported());
}

#[test]
fn buffer_reports_length_and_dtype() {
    let buf = IntBuffer::U16(vec![1, 2, 3]);
    assert_eq!(buf.len(), 3);
    assert_eq!(buf.dtype(), Dtype::UInt16);
    let buf = IntBuffer::I8(vec![]);
    assert_eq!(buf.len(), 0);
    assert_eq!(buf.dtype(), Dtype::Int8);
}

#[test]
fn buffer_kernels_agree() {
    let buf = IntBuffer::U32(vec![0x0101_0101, 7]);
    assert_eq!(bit_counter::buffer::count_buffer(&buf), 7);
    assert_eq!(bit_counter::parallel::count_buffer_parallel(&buf), 7);
}
