use half::bf16;
use rawarray::array::RawArray;
use rawarray::file::RawArrayFile;
use rawarray::format::{flags_as_string, RawArrayError, MAGIC_NUMBER};

fn words(ws: &[u64]) -> Vec<u8> {
    let mut out = Vec::new();
    for w in ws {
        out.extend_from_slice(&w.to_le_bytes());
    }
    out
}

#[test]
fn bf16() {
    let vec1: Vec<f32> = vec![1.0, 2.0, 3.0, 4.0];
    let bvec: Vec<bf16> = vec1.iter().map(|x| bf16::from_f32(*x)).collect();
    let ra: RawArray<bf16> = RawArray::from_vec(bvec.clone());
    let bytes = ra.to_bytes();
    let vec2: Vec<bf16> = RawArray::<bf16>::from_bytes(&bytes).unwrap().into_vec();
    assert_eq!(bvec, vec2);
}

#[test]
fn bf16_payload_holds_bit_patterns() {
    let ra = RawArray::from_vec(vec![bf16::from_f32(1.0), bf16::from_f32(-2.0)]);
    let bytes = ra.to_bytes();
    assert_eq!(bytes.len(), 48 + 8 + 4);
    assert_eq!(&bytes[56..], &[0x80, 0x3f, 0x00, 0xc0]);
    assert_eq!(ra.eltype(), 5);
    assert_eq!(ra.elbyte(), 2);
    let back = RawArray::<bf16>::from_bytes(&bytes).unwrap();
    assert_eq!(back.data()[1].to_f32(), -2.0);
}

#[test]
fn write_header_fields_of_sequence() {
    let ra = RawArray::from_vec(vec![314i32, 272, 162, 141]);
    let bytes = ra.to_bytes();
    assert_eq!(bytes[0..48], words(&[MAGIC_NUMBER, 0, 1, 4, 16, 1])[..]);
    assert_eq!(bytes[48..56], words(&[4])[..]);
    assert_eq!(bytes.len(), 56 + 16);
    let back = RawArray::<i32>::from_bytes(&bytes).unwrap();
    assert_eq!(back.flags(), 0);
    assert_eq!(back.dims(), vec![4]);
    assert_eq!(back.data(), vec![314, 272, 162, 141]);
}

#[test]
fn reshape_six_ints() {
    let mut r = RawArray::from_vec(vec![1i32, 2, 3, 4, 5, 6]);
    assert_eq!(r.dims(), vec![6]);
    r.reshape(vec![2, 3]);
    assert_eq!(r.dims(), vec![2, 3]);
    assert_eq!(r.ndims(), 2);
    assert_eq!(r.data(), vec![1, 2, 3, 4, 5, 6]);
    assert_eq!(r.data().len(), 6);
    assert_eq!(r.size(), 24);
}

#[test]
fn reshape_u16_square() {
    let mut r = RawArray::from_vec(vec![1u16, 0, 1, 0]);
    r.reshape([2, 2].to_vec());
    assert_eq!(r.dims(), vec![2, 2]);
}

#[test]
fn round_trip_every_integer_type() {
    let a = RawArray::from_vec(vec![-1i8, 0, 127, -128]);
    assert_eq!(RawArray::<i8>::from_bytes(&a.to_bytes()).unwrap(), a);
    let a = RawArray::from_vec(vec![0u16, 65535, 258]);
    assert_eq!(RawArray::<u16>::from_bytes(&a.to_bytes()).unwrap(), a);
    let a = RawArray::from_vec(vec![i16::MIN, -2, i16::MAX]);
    assert_eq!(RawArray::<i16>::from_bytes(&a.to_bytes()).unwrap(), a);
    let a = RawArray::from_vec(vec![u32::MAX, 7]);
    assert_eq!(RawArray::<u32>::from_bytes(&a.to_bytes()).unwrap(), a);
    let a = RawArray::from_vec(vec![i64::MIN, 5, -5]);
    assert_eq!(RawArray::<i64>::from_bytes(&a.to_bytes()).unwrap(), a);
    let a = RawArray::from_vec(vec![u64::MAX]);
    assert_eq!(RawArray::<u64>::from_bytes(&a.to_bytes()).unwrap(), a);
    let a = RawArray::from_vec(vec![i128::MIN, 3]);
    assert_eq!(RawArray::<i128>::from_bytes(&a.to_bytes()).unwrap(), a);
    let mut a = RawArray::from_vec(vec![1u128, 2, 3, 4, 5, 6]);
    a.reshape(vec![3, 1, 2]);
    let b = RawArray::<u128>::from_bytes(&a.to_bytes()).unwrap();
    assert_eq!(b.dims(), vec![3, 1, 2]);
    assert_eq!(b, a);
}

#[test]
fn signed_bytes_are_twos_complement() {
    let a = RawArray::from_vec(vec![-2i16]);
    assert_eq!(&a.to_bytes()[56..], &[0xfe, 0xff]);
}

#[test]
fn empty_array_round_trips() {
    let a: RawArray<u8> = RawArray::new();
    assert_eq!(a.dims(), vec![0]);
    assert_eq!(a.size(), 0);
    let bytes = a.to_bytes();
    assert_eq!(bytes.len(), 56);
    assert_eq!(RawArray::<u8>::from_bytes(&bytes).unwrap(), a);
    let d: RawArray<u8> = RawArray::default();
    assert_eq!(d, a);
}

#[test]
fn accessor_values() {
    let r = RawArray::from_vec(vec![0xc0u8, 0xff, 0xee]);
    assert_eq!(r.eltype(), 2);
    let r = RawArray::from_vec(vec![3u64, 1, 4]);
    assert_eq!(r.elbyte(), 8);
    let r = RawArray::from_vec(vec![8u32, 6, 7, 5, 3, 0, 9]);
    assert_eq!(r.size(), 28);
    let r = RawArray::from_vec(vec![1i32, 1, 2, 3, 5, 8]);
    assert_eq!(r.ndims(), 1);
    assert_eq!(r.eltype(), 1);
    let r = RawArray::from_vec(vec![1i16, 0, 1, 0]);
    assert_eq!(r.dims(), vec![4]);
    let r = RawArray::from_vec(vec![1u16, 0, 1, 0]);
    assert_eq!(*r.dims_as_ref(), vec![4]);
    assert_eq!(*r.data_as_ref(), vec![1, 0, 1, 0]);
    assert_eq!(r.clone().into_vec(), vec![1, 0, 1, 0]);
}

#[test]
fn clone_with_data_keeps_header() {
    let mut r = RawArray::from_vec(vec![1u8, 2, 3, 4]);
    r.reshape(vec![2, 2]);
    let c = r.clone_with_data(vec![9, 8, 7, 6]);
    assert_eq!(c.dims(), vec![2, 2]);
    assert_eq!(c.size(), 4);
    assert_eq!(c.data(), vec![9, 8, 7, 6]);
}

#[test]
fn bad_magic_is_invalid_format() {
    let mut bytes = RawArray::from_vec(vec![1u8, 2]).to_bytes();
    bytes[0] ^= 1;
    assert_eq!(RawArray::<u8>::from_bytes(&bytes), Err(RawArrayError::InvalidFormat));
    assert_eq!(RawArray::<u8>::from_bytes(&[1, 2, 3]), Err(RawArrayError::InvalidFormat));
    assert_eq!(RawArray::<u8>::from_bytes(&[]), Err(RawArrayError::InvalidFormat));
}

#[test]
fn unknown_flag_is_unsupported() {
    let mut bytes = RawArray::from_vec(vec![1u8, 2]).to_bytes();
    bytes[8] = 8;
    assert_eq!(RawArray::<u8>::from_bytes(&bytes), Err(RawArrayError::UnsupportedFeature));
    bytes[8] = 0;
    bytes[15] = 0x80;
    assert_eq!(RawArray::<u8>::from_bytes(&bytes), Err(RawArrayError::UnsupportedFeature));
}

#[test]
fn big_endian_flag_is_unsupported() {
    let mut bytes = RawArray::from_vec(vec![1u16, 2]).to_bytes();
    bytes[8] = 1;
    assert_eq!(RawArray::<u16>::from_bytes(&bytes), Err(RawArrayError::UnsupportedFeature));
}

#[test]
fn other_type_is_mismatch() {
    let bytes = RawArray::from_vec(vec![1u32, 2]).to_bytes();
    assert_eq!(RawArray::<i32>::from_bytes(&bytes), Err(RawArrayError::TypeMismatch));
    assert_eq!(RawArray::<u16>::from_bytes(&bytes), Err(RawArrayError::TypeMismatch));
    assert_eq!(RawArray::<bf16>::from_bytes(&bytes), Err(RawArrayError::TypeMismatch));
    assert!(RawArray::<u32>::from_bytes(&bytes).is_ok());
}

#[test]
fn wrong_size_is_corrupt_header() {
    let mut bytes = RawArray::from_vec(vec![1u32, 2]).to_bytes();
    bytes[32] = 12;
    assert_eq!(RawArray::<u32>::from_bytes(&bytes), Err(RawArrayError::CorruptHeader));
}

#[test]
fn overflowing_dims_are_corrupt_header() {
    let mut bytes = words(&[MAGIC_NUMBER, 0, 2, 1, 0, 3, u64::MAX, u64::MAX, 0]);
    assert_eq!(RawArray::<u8>::from_bytes(&bytes), Ok(RawArray::<u8>::from_bytes(&bytes).unwrap()));
    assert_eq!(RawArray::<u8>::from_bytes(&bytes).unwrap().dims(), vec![u64::MAX, u64::MAX, 0]);
    bytes[32] = 1;
    assert_eq!(RawArray::<u8>::from_bytes(&bytes), Err(RawArrayError::CorruptHeader));
    let bytes = words(&[MAGIC_NUMBER, 0, 2, 1, 1, 2, u64::MAX, 2]);
    assert_eq!(RawArray::<u8>::from_bytes(&bytes), Err(RawArrayError::CorruptHeader));
}

#[test]
fn short_payload_is_truncated() {
    let bytes = RawArray::from_vec(vec![1u32, 2]).to_bytes();
    assert_eq!(
        RawArray::<u32>::from_bytes(&bytes[..bytes.len() - 1]),
        Err(RawArrayError::TruncatedFile)
    );
    assert_eq!(RawArray::<u32>::from_bytes(&bytes[..50]), Err(RawArrayError::TruncatedFile));
    assert_eq!(RawArray::<u32>::from_bytes(&bytes[..12]), Err(RawArrayError::TruncatedFile));
    let huge_ndims = words(&[MAGIC_NUMBER, 0, 2, 4, 0, u64::MAX]);
    assert_eq!(RawArray::<u32>::from_bytes(&huge_ndims), Err(RawArrayError::TruncatedFile));
}

#[test]
fn flag_names() {
    assert_eq!(flags_as_string(0), "LittleEndian ");
    assert_eq!(flags_as_string(1), "BigEndian ");
    assert_eq!(flags_as_string(7), "BigEndian RLE BitArray");
    assert_eq!(flags_as_string(4), "LittleEndian BitArray");
}

#[test]
fn file_cursor_reads_header() {
    let mut a = RawArray::from_vec(vec![1u16, 2, 3, 4, 5, 6]);
    a.reshape(vec![3, 2]);
    let mut f = RawArrayFile::valid_open(a.to_bytes()).unwrap();
    assert_eq!(f.u64_at(16), Ok(2));
    assert_eq!(f.u64_at(40), Ok(2));
    assert_eq!(f.u64(), Ok(MAGIC_NUMBER));
    assert_eq!(f.u64(), Ok(0));
    assert_eq!(f.seek(24), Ok(()));
    assert_eq!(f.u64(), Ok(2));
    assert_eq!(f.u64(), Ok(3));
    assert_eq!(f.u64(), Ok(2));
    assert_eq!(f.u64(), Ok(0x0004_0003_0002_0001));
    assert_eq!(f.u64(), Err(RawArrayError::TruncatedFile));
    assert_eq!(f.u64_at(1000), Err(RawArrayError::TruncatedFile));
    assert!(matches!(RawArrayFile::valid_open(vec![0; 16]), Err(RawArrayError::InvalidFormat)));
    assert!(matches!(RawArrayFile::valid_open(vec![0; 3]), Err(RawArrayError::InvalidFormat)));
}
