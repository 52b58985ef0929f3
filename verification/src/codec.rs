//! Conversion between arrays of 32-bit signed integers and their
//! little-endian byte images, as they travel to and from device buffers.

use vstd::prelude::*;

verus! {

/// The four little-endian bytes of a 32-bit signed integer.
pub open spec fn le_bytes_of_i32(x: i32) -> Seq<u8> {
    seq![
        (x as u32) as u8,
        ((x as u32) >> 8u32) as u8,
        ((x as u32) >> 16u32) as u8,
        ((x as u32) >> 24u32) as u8,
    ]
}

/// The 32-bit signed integer whose little-endian bytes are `b0 b1 b2 b3`.
pub open spec fn i32_of_le_bytes(b0: u8, b1: u8, b2: u8, b3: u8) -> i32 {
    ((b0 as u32) | ((b1 as u32) << 8u32) | ((b2 as u32) << 16u32) | ((b3 as u32) << 24u32)) as i32
}

/// The little-endian byte image of an integer array, element by element.
pub open spec fn bytes_of_ints(s: Seq<i32>) -> Seq<u8> {
    Seq::new(s.len() * 4, |i: int| le_bytes_of_i32(s[i / 4])[i % 4])
}

/// The integer array read back from a little-endian byte image; a trailing
/// fragment shorter than four bytes is ignored.
pub open spec fn ints_of_bytes(b: Seq<u8>) -> Seq<i32> {
    Seq::new(b.len() / 4, |j: int| i32_of_le_bytes(b[4 * j], b[4 * j + 1], b[4 * j + 2], b[4 * j + 3]))
}

/// Reassembling the four little-endian bytes of an integer gives that
/// integer back.
pub proof fn lemma_i32_le_round_trip(x: i32)
    ensures
        i32_of_le_bytes(
            le_bytes_of_i32(x)[0],
            le_bytes_of_i32(x)[1],
            le_bytes_of_i32(x)[2],
            le_bytes_of_i32(x)[3],
        ) == x,
{
    assert(((((x as u32) as u8) as u32)
        | ((((x as u32) >> 8u32) as u8 as u32) << 8u32)
        | ((((x as u32) >> 16u32) as u8 as u32) << 16u32)
        | ((((x as u32) >> 24u32) as u8 as u32) << 24u32)) as i32 == x) by (bit_vector);
}

/// Encoding an integer array to bytes and decoding it again yields the
/// original array: the codec loses nothing on the way to the device and back.
pub proof fn lemma_codec_round_trip(s: Seq<i32>)
    ensures
        ints_of_bytes(bytes_of_ints(s)) == s,
{
    let b = bytes_of_ints(s);
    assert(b.len() == s.len() * 4);
    assert forall|j: int| 0 <= j < s.len() implies ints_of_bytes(b)[j] == s[j] by {
        assert(b[4 * j] == le_bytes_of_i32(s[j])[0]);
        assert(b[4 * j + 1] == le_bytes_of_i32(s[j])[1]);
        assert(b[4 * j + 2] == le_bytes_of_i32(s[j])[2]);
        assert(b[4 * j + 3] == le_bytes_of_i32(s[j])[3]);
        lemma_i32_le_round_trip(s[j]);
    }
    assert(ints_of_bytes(b) =~= s);
}

/// Encodes an integer array as its little-endian byte image.
pub fn encode_i32s(arr: &Vec<i32>) -> (r: Vec<u8>)
    ensures
        r@ == bytes_of_ints(arr@),
{
    let mut out: Vec<u8> = Vec::new();
    let mut i: usize = 0;
    while i < arr.len()
        invariant
            i <= arr.len(),
            out@.len() == 4 * i,
            forall|k: int| 0 <= k < 4 * i ==> out@[k] == bytes_of_ints(arr@)[k],
        decreases arr.len() - i,
    {
        let u: u32 = arr[i] as u32;
        out.push(#[verifier::truncate] (u as u8));
        out.push(#[verifier::truncate] ((u >> 8) as u8));
        out.push(#[verifier::truncate] ((u >> 16) as u8));
        out.push(#[verifier::truncate] ((u >> 24) as u8));
        proof {
            assert forall|k: int| 4 * i <= k < 4 * (i + 1) implies out@[k] == bytes_of_ints(
                arr@,
            )[k] by {
                assert(k / 4 == i && k % 4 == k - 4 * i);
            }
        }
        i = i + 1;
    }
    proof {
        assert(out@ =~= bytes_of_ints(arr@));
    }
    out
}

/// Decodes a byte image back into an integer array of the expected element
/// count; rejects an image whose length is not exactly four bytes per
/// expected element.
pub fn decode_i32s(data: &Vec<u8>, count: usize) -> (r: Option<Vec<i32>>)
    ensures
        r is Some <==> data@.len() == count * 4,
        r is Some ==> r.unwrap()@ == ints_of_bytes(data@),
{
    if data.len() % 4 != 0 || data.len() / 4 != count {
        return None;
    }
    let mut out: Vec<i32> = Vec::new();
    let mut j: usize = 0;
    while j < count
        invariant
            j <= count,
            data@.len() == count * 4,
            data@.len() <= usize::MAX,
            out@.len() == j,
            forall|t: int| 0 <= t < j ==> out@[t] == ints_of_bytes(data@)[t],
        decreases count - j,
    {
        proof {
            assert(4 * j + 3 < data@.len());
        }
        let b0: u32 = data[4 * j] as u32;
        let b1: u32 = data[4 * j + 1] as u32;
        let b2: u32 = data[4 * j + 2] as u32;
        let b3: u32 = data[4 * j + 3] as u32;
        let u: u32 = b0 | (b1 << 8) | (b2 << 16) | (b3 << 24);
        out.push(#[verifier::truncate] (u as i32));
        j = j + 1;
    }
    proof {
        assert(out@ =~= ints_of_bytes(data@));
    }
    Some(out)
}

} // verus!
