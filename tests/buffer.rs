use terrain_render::buffer::{BackedBuffer, BufferUpload};

#[test]
fn with_data_sizes_to_data_and_uploads_everything() {
    let mut b = BackedBuffer::with_data(vec![1u32, 2, 3]);
    assert_eq!(b.len(), 3);
    assert_eq!(b.capacity(), 3);
    assert_eq!(b.as_slice(), &[1, 2, 3]);
    let u = b.flush();
    assert_eq!(u, BufferUpload { reallocate: true, capacity: 3, start: 0, end: 3 });
    let again = b.flush();
    assert_eq!(again, BufferUpload { reallocate: false, capacity: 3, start: 3, end: 3 });
}

#[test]
fn with_capacity_starts_empty() {
    let mut b: BackedBuffer<u64> = BackedBuffer::with_capacity(8);
    assert_eq!(b.len(), 0);
    assert_eq!(b.capacity(), 8);
    assert_eq!(b.flush(), BufferUpload { reallocate: true, capacity: 8, start: 0, end: 0 });
}

#[test]
fn batch_reads_back_pushed_values_in_order() {
    let mut b: BackedBuffer<u32> = BackedBuffer::with_capacity(4);
    b.flush();
    for v in [7u32, 8, 9] {
        b.push(v);
    }
    let u = b.flush();
    assert_eq!(b.len(), 3);
    assert_eq!(b.as_slice(), &[7, 8, 9]);
    assert_eq!(u, BufferUpload { reallocate: false, capacity: 4, start: 0, end: 3 });
    b.push(10);
    let u = b.flush();
    assert_eq!(b.as_slice(), &[7, 8, 9, 10]);
    assert_eq!(u, BufferUpload { reallocate: false, capacity: 4, start: 3, end: 4 });
}

#[test]
fn growth_doubles_and_preserves_contents() {
    let mut b: BackedBuffer<u32> = BackedBuffer::with_capacity(2);
    b.flush();
    b.push(1);
    b.push(2);
    b.flush();
    b.push(3);
    assert_eq!(b.capacity(), 4);
    assert_eq!(b.as_slice(), &[1, 2, 3]);
    let u = b.flush();
    assert_eq!(u, BufferUpload { reallocate: true, capacity: 4, start: 0, end: 3 });
}

#[test]
fn growth_from_zero_capacity_is_exact() {
    let mut b: BackedBuffer<u32> = BackedBuffer::with_capacity(0);
    b.push(5);
    assert_eq!(b.capacity(), 1);
    b.push(6);
    assert_eq!(b.capacity(), 2);
    assert_eq!(b.as_slice(), &[5, 6]);
}

#[test]
fn clear_then_batch_gives_batch_length() {
    let mut b = BackedBuffer::with_data(vec![1u32, 2, 3, 4, 5]);
    b.flush();
    b.clear();
    assert_eq!(b.len(), 0);
    assert_eq!(b.capacity(), 5);
    b.push(9);
    b.push(8);
    let u = b.flush();
    assert_eq!(b.len(), 2);
    assert_eq!(b.as_slice(), &[9, 8]);
    assert_eq!(u, BufferUpload { reallocate: false, capacity: 5, start: 0, end: 2 });
}

#[test]
fn replace_in_place_keeps_capacity() {
    let mut b = BackedBuffer::with_data(vec![1u32, 2, 3, 4]);
    b.flush();
    b.replace(vec![5, 6]);
    assert_eq!(b.capacity(), 4);
    assert_eq!(b.as_slice(), &[5, 6]);
    assert_eq!(b.flush(), BufferUpload { reallocate: false, capacity: 4, start: 0, end: 2 });
}

#[test]
fn replace_larger_grows_exact_when_doubling_is_short() {
    let mut b = BackedBuffer::with_data(vec![1u32, 2]);
    b.flush();
    b.replace(vec![1, 2, 3, 4, 5]);
    assert_eq!(b.capacity(), 5);
    assert_eq!(b.flush(), BufferUpload { reallocate: true, capacity: 5, start: 0, end: 5 });
    b.replace(vec![0; 7]);
    assert_eq!(b.capacity(), 10);
}

#[test]
fn pending_upload_does_not_clear() {
    let mut b: BackedBuffer<u32> = BackedBuffer::with_capacity(3);
    b.push(1);
    let first = b.pending_upload();
    assert_eq!(first, b.pending_upload());
    assert_eq!(first, b.flush());
}
