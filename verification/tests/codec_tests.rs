use gpu_dispatch::codec::decode_i32s;
use gpu_dispatch::codec::encode_i32s;

#[test]
fn encode_is_little_endian() {
    let v: Vec<i32> = vec![1, -1];
    let b = encode_i32s(&v);
    assert_eq!(b, vec![1u8, 0, 0, 0, 255, 255, 255, 255]);
}

#[test]
fn encode_empty_array_is_empty() {
    let v: Vec<i32> = vec![];
    let b = encode_i32s(&v);
    assert_eq!(b, Vec::<u8>::new());
}

#[test]
fn encode_exact_bytes_of_mixed_values() {
    let v: Vec<i32> = vec![0x0403_0201, 256];
    let b = encode_i32s(&v);
    assert_eq!(b, vec![1u8, 2, 3, 4, 0, 1, 0, 0]);
}

#[test]
fn decode_rejects_misaligned_length() {
    let b: Vec<u8> = vec![1, 2, 3];
    assert_eq!(decode_i32s(&b, 0), None);
    assert_eq!(decode_i32s(&b, 1), None);
}

#[test]
fn decode_rejects_wrong_count() {
    let b: Vec<u8> = vec![1, 0, 0, 0];
    assert_eq!(decode_i32s(&b, 2), None);
    assert_eq!(decode_i32s(&b, 0), None);
    assert_eq!(decode_i32s(&b, 1), Some(vec![1i32]));
}

#[test]
fn round_trip_preserves_extremes() {
    let v: Vec<i32> = vec![i32::MIN, -1, 0, 1, i32::MAX, 123_456_789];
    let b = encode_i32s(&v);
    assert_eq!(b.len(), v.len() * 4);
    assert_eq!(decode_i32s(&b, v.len()), Some(v));
}

#[test]
fn round_trip_many_counts() {
    for n in [1usize, 2, 3, 63, 64, 65, 1000] {
        let v: Vec<i32> = (0..n as i32).map(|x| x * 7 - 3).collect();
        let b = encode_i32s(&v);
        assert_eq!(b.len(), 4 * n);
        assert_eq!(decode_i32s(&b, n), Some(v));
    }
}
