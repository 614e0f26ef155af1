use gloom::helpers::{byte_size_of_array, size_of};

#[test]
fn byte_size_of_float_array() {
    let v: Vec<f32> = vec![0.0; 9];
    assert_eq!(byte_size_of_array(&v), 36);
}

#[test]
fn byte_size_of_index_array() {
    let v: Vec<u32> = vec![0, 1, 2];
    assert_eq!(byte_size_of_array(&v), 12);
    let e: Vec<u64> = Vec::new();
    assert_eq!(byte_size_of_array(&e), 0);
}

#[test]
fn size_of_primitives() {
    assert_eq!(size_of::<f32>(), 4);
    assert_eq!(size_of::<u64>(), 8);
    assert_eq!(size_of::<u8>(), 1);
}
