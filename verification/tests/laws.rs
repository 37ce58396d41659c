use bit_counter::ArrayView;
use bit_counter::IntBuffer;
use bit_counter::buffer::count_ones_i32;
use bit_counter::buffer::count_ones_u8;
use bit_counter::buffer::count_ones_u64;
use bit_counter::count_ones;
use bit_counter::count_ones_parallel;

fn sample_bytes(n: usize) -> Vec<u8> {
    (0..n).map(|i| (i.wrapping_mul(151).wrapping_add(43) % 256) as u8).collect()
}

#[test]
fn repeated_calls_agree() {
    let view = ArrayView::flat(IntBuffer::U32(vec![7, 0, 0xFFFF_FFFF, 12345]));
    let first = count_ones(&view);
    for _ in 0..5 {
        assert_eq!(count_ones(&view), first);
        assert_eq!(count_ones_parallel(&view), first);
    }
}

#[test]
fn chunked_counts_sum_to_the_whole() {
    let data = sample_bytes(1000);
    let whole = count_ones_u8(&data);
    for split in [0, 1, 250, 999, 1000] {
        let parts = count_ones_u8(&data[..split]) + count_ones_u8(&data[split..]);
        assert_eq!(parts, whole);
    }
    let mut three_way = 0;
    for chunk in data.chunks(333) {
        three_way += count_ones_u8(chunk);
    }
    assert_eq!(three_way, whole);
}

#[test]
fn chunked_counts_sum_to_the_whole_u64() {
    let data: Vec<u64> = (0..257u64).map(|i| i.wrapping_mul(0x9E37_79B9_7F4A_7C15)).collect();
    let whole = count_ones_u64(&data);
    let parts: u128 = data.chunks(64).map(count_ones_u64).sum();
    assert_eq!(parts, whole);
}

#[test]
fn parallel_path_agrees_with_sequential_path() {
    let bytes = sample_bytes(4096);
    let seq_view = ArrayView::flat(IntBuffer::U8(bytes.clone()));
    assert_eq!(count_ones_parallel(&seq_view), count_ones(&seq_view));

    let ints: Vec<i32> = (0..1025i64).map(|i| (i * 2_654_435_761 - (1 << 40)) as i32).collect();
    let whole = count_ones_i32(&ints);
    let view = ArrayView::flat(IntBuffer::I32(ints));
    assert_eq!(count_ones_parallel(&view), Ok(whole));
    assert_eq!(count_ones(&view), Ok(whole));
}

#[test]
fn all_zero_buffers_count_zero() {
    assert_eq!(count_ones(&ArrayView::flat(IntBuffer::U8(vec![0; 100]))), Ok(0));
    assert_eq!(count_ones(&ArrayView::flat(IntBuffer::U16(vec![0; 3]))), Ok(0));
    assert_eq!(count_ones(&ArrayView::flat(IntBuffer::U32(vec![0; 17]))), Ok(0));
    assert_eq!(count_ones(&ArrayView::flat(IntBuffer::U64(vec![0; 1]))), Ok(0));
    assert_eq!(count_ones(&ArrayView::flat(IntBuffer::I8(vec![0; 9]))), Ok(0));
    assert_eq!(count_ones(&ArrayView::flat(IntBuffer::I16(vec![0; 2]))), Ok(0));
    assert_eq!(count_ones(&ArrayView::flat(IntBuffer::I32(vec![0; 31]))), Ok(0));
    assert_eq!(count_ones_parallel(&ArrayView::flat(IntBuffer::I64(vec![0; 1000]))), Ok(0));
}

#[test]
fn all_ones_buffers_count_length_times_width() {
    assert_eq!(count_ones(&ArrayView::flat(IntBuffer::U8(vec![0xFF; 5]))), Ok(5 * 8));
    assert_eq!(count_ones(&ArrayView::flat(IntBuffer::U16(vec![0xFFFF; 3]))), Ok(3 * 16));
    assert_eq!(count_ones(&ArrayView::flat(IntBuffer::U32(vec![u32::MAX; 2]))), Ok(2 * 32));
    assert_eq!(count_ones(&ArrayView::flat(IntBuffer::U64(vec![u64::MAX; 2]))), Ok(2 * 64));
    assert_eq!(count_ones(&ArrayView::flat(IntBuffer::I8(vec![-1; 9]))), Ok(9 * 8));
    assert_eq!(count_ones(&ArrayView::flat(IntBuffer::I16(vec![-1; 1]))), Ok(16));
    assert_eq!(count_ones(&ArrayView::flat(IntBuffer::I32(vec![-1; 3]))), Ok(3 * 32));
    assert_eq!(count_ones_parallel(&ArrayView::flat(IntBuffer::I64(vec![-1; 2]))), Ok(2 * 64));
}
