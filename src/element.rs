//! The element types that a RawArray can hold: each has a type code, a byte
//! width and a little-endian byte image.

use crate::half_bits::bf16_bits;
use vstd::bytes::*;
use vstd::prelude::*;
use vstd::slice::slice_index_get;

verus! {

/// An element type of a RawArray file.
///
/// The type code and the width are properties of the type. The byte image of
/// a value is what a file holds for it; decoding an image gives back a value
/// with that same image, so a file keeps its payload bit for bit.
pub trait RawArrayType: Sized + Copy {
    /// Class of the element type: 1 signed integer, 2 unsigned integer,
    /// 3 IEEE float, 4 complex, 5 brain float (0 is left to user types).
    spec fn type_code() -> u64;

    /// Number of bytes of one element.
    spec fn width() -> nat;

    /// The little-endian byte image of a value.
    spec fn le_image(x: Self) -> Seq<u8>;

    proof fn lemma_width()
        ensures
            1 <= Self::width() <= 16,
    ;

    proof fn lemma_image_len(x: Self)
        ensures
            Self::le_image(x).len() == Self::width(),
    ;

    fn ra_type_code() -> (r: u64)
        ensures
            r == Self::type_code(),
    ;

    fn ra_elbyte() -> (r: u64)
        ensures
            r == Self::width(),
    ;

    fn to_le(self) -> (r: Vec<u8>)
        ensures
            r@ == Self::le_image(self),
    ;

    fn from_le(b: &[u8]) -> (r: Self)
        requires
            b@.len() == Self::width(),
        ensures
            Self::le_image(r) == b@,
    ;
}

impl RawArrayType for u8 {
    open spec fn type_code() -> u64 {
        2
    }

    open spec fn width() -> nat {
        1
    }

    open spec fn le_image(x: u8) -> Seq<u8> {
        seq![x]
    }

    proof fn lemma_width() {
    }

    proof fn lemma_image_len(x: u8) {
    }

    fn ra_type_code() -> (r: u64) {
        2
    }

    fn ra_elbyte() -> (r: u64) {
        1
    }

    fn to_le(self) -> (r: Vec<u8>) {
        vec![self]
    }

    fn from_le(b: &[u8]) -> (r: u8) {
        let x = *slice_index_get(b, 0);
        assert(seq![x] =~= b@);
        x
    }
}

impl RawArrayType for u16 {
    open spec fn type_code() -> u64 {
        2
    }

    open spec fn width() -> nat {
        2
    }

    open spec fn le_image(x: u16) -> Seq<u8> {
        spec_u16_to_le_bytes(x)
    }

    proof fn lemma_width() {
    }

    proof fn lemma_image_len(x: u16) {
        lemma_auto_spec_u16_to_from_le_bytes();
    }

    fn ra_type_code() -> (r: u64) {
        2
    }

    fn ra_elbyte() -> (r: u64) {
        2
    }

    fn to_le(self) -> (r: Vec<u8>) {
        u16_to_le_bytes(self)
    }

    fn from_le(b: &[u8]) -> (r: u16) {
        proof {
            lemma_auto_spec_u16_to_from_le_bytes();
        }
        u16_from_le_bytes(b)
    }
}

impl RawArrayType for i16 {
    open spec fn type_code() -> u64 {
        1
    }

    open spec fn width() -> nat {
        2
    }

    open spec fn le_image(x: i16) -> Seq<u8> {
        spec_u16_to_le_bytes(x as u16)
    }

    proof fn lemma_width() {
    }

    proof fn lemma_image_len(x: i16) {
        lemma_auto_spec_u16_to_from_le_bytes();
    }

    fn ra_type_code() -> (r: u64) {
        1
    }

    fn ra_elbyte() -> (r: u64) {
        2
    }

    fn to_le(self) -> (r: Vec<u8>) {
        u16_to_le_bytes(self as u16)
    }

    fn from_le(b: &[u8]) -> (r: i16) {
        proof {
            lemma_auto_spec_u16_to_from_le_bytes();
        }
        let u = u16_from_le_bytes(b);
        let r = u as i16;
        assert(r as u16 == u) by (bit_vector)
            requires
                r == u as i16,
        ;
        r
    }
}

impl RawArrayType for i8 {
    open spec fn type_code() -> u64 {
        1
    }

    open spec fn width() -> nat {
        1
    }

    open spec fn le_image(x: i8) -> Seq<u8> {
        seq![x as u8]
    }

    proof fn lemma_width() {
    }

    proof fn lemma_image_len(x: i8) {
    }

    fn ra_type_code() -> (r: u64) {
        1
    }

    fn ra_elbyte() -> (r: u64) {
        1
    }

    fn to_le(self) -> (r: Vec<u8>) {
        vec![self as u8]
    }

    fn from_le(b: &[u8]) -> (r: i8) {
        let u = *slice_index_get(b, 0);
        let r = u as i8;
        assert(r as u8 == u) by (bit_vector)
            requires
                r == u as i8,
        ;
        assert(seq![r as u8] =~= b@);
        r
    }
}

impl RawArrayType for u32 {
    open spec fn type_code() -> u64 {
        2
    }

    open spec fn width() -> nat {
        4
    }

    open spec fn le_image(x: u32) -> Seq<u8> {
        spec_u32_to_le_bytes(x)
    }

    proof fn lemma_width() {
    }

    proof fn lemma_image_len(x: u32) {
        lemma_auto_spec_u32_to_from_le_bytes();
    }

    fn ra_type_code() -> (r: u64) {
        2
    }

    fn ra_elbyte() -> (r: u64) {
        4
    }

    fn to_le(self) -> (r: Vec<u8>) {
        u32_to_le_bytes(self)
    }

    fn from_le(b: &[u8]) -> (r: u32) {
        proof {
            lemma_auto_spec_u32_to_from_le_bytes();
        }
        u32_from_le_bytes(b)
    }
}

impl RawArrayType for i32 {
    open spec fn type_code() -> u64 {
        1
    }

    open spec fn width() -> nat {
        4
    }

    open spec fn le_image(x: i32) -> Seq<u8> {
        spec_u32_to_le_bytes(x as u32)
    }

    proof fn lemma_width() {
    }

    proof fn lemma_image_len(x: i32) {
        lemma_auto_spec_u32_to_from_le_bytes();
    }

    fn ra_type_code() -> (r: u64) {
        1
    }

    fn ra_elbyte() -> (r: u64) {
        4
    }

    fn to_le(self) -> (r: Vec<u8>) {
        u32_to_le_bytes(self as u32)
    }

    fn from_le(b: &[u8]) -> (r: i32) {
        proof {
            lemma_auto_spec_u32_to_from_le_bytes();
        }
        let u = u32_from_le_bytes(b);
        let r = u as i32;
        assert(r as u32 == u) by (bit_vector)
            requires
                r == u as i32,
        ;
        r
    }
}

impl RawArrayType for u64 {
    open spec fn type_code() -> u64 {
        2
    }

    open spec fn width() -> nat {
        8
    }

    open spec fn le_image(x: u64) -> Seq<u8> {
        spec_u64_to_le_bytes(x)
    }

    proof fn lemma_width() {
    }

    proof fn lemma_image_len(x: u64) {
        lemma_auto_spec_u64_to_from_le_bytes();
    }

    fn ra_type_code() -> (r: u64) {
        2
    }

    fn ra_elbyte() -> (r: u64) {
        8
    }

    fn to_le(self) -> (r: Vec<u8>) {
        u64_to_le_bytes(self)
    }

    fn from_le(b: &[u8]) -> (r: u64) {
        proof {
            lemma_auto_spec_u64_to_from_le_bytes();
        }
        u64_from_le_bytes(b)
    }
}

impl RawArrayType for i64 {
    open spec fn type_code() -> u64 {
        1
    }

    open spec fn width() -> nat {
        8
    }

    open spec fn le_image(x: i64) -> Seq<u8> {
        spec_u64_to_le_bytes(x as u64)
    }

    proof fn lemma_width() {
    }

    proof fn lemma_image_len(x: i64) {
        lemma_auto_spec_u64_to_from_le_bytes();
    }

    fn ra_type_code() -> (r: u64) {
        1
    }

    fn ra_elbyte() -> (r: u64) {
        8
    }

    fn to_le(self) -> (r: Vec<u8>) {
        u64_to_le_bytes(self as u64)
    }

    fn from_le(b: &[u8]) -> (r: i64) {
        proof {
            lemma_auto_spec_u64_to_from_le_bytes();
        }
        let u = u64_from_le_bytes(b);
        let r = u as i64;
        assert(r as u64 == u) by (bit_vector)
            requires
                r == u as i64,
        ;
        r
    }
}

impl RawArrayType for u128 {
    open spec fn type_code() -> u64 {
        2
    }

    open spec fn width() -> nat {
        16
    }

    open spec fn le_image(x: u128) -> Seq<u8> {
        spec_u128_to_le_bytes(x)
    }

    proof fn lemma_width() {
    }

    proof fn lemma_image_len(x: u128) {
        lemma_auto_spec_u128_to_from_le_bytes();
    }

    fn ra_type_code() -> (r: u64) {
        2
    }

    fn ra_elbyte() -> (r: u64) {
        16
    }

    fn to_le(self) -> (r: Vec<u8>) {
        u128_to_le_bytes(self)
    }

    fn from_le(b: &[u8]) -> (r: u128) {
        proof {
            lemma_auto_spec_u128_to_from_le_bytes();
        }
        u128_from_le_bytes(b)
    }
}

impl RawArrayType for i128 {
    open spec fn type_code() -> u64 {
        1
    }

    open spec fn width() -> nat {
        16
    }

    open spec fn le_image(x: i128) -> Seq<u8> {
        spec_u128_to_le_bytes(x as u128)
    }

    proof fn lemma_width() {
    }

    proof fn lemma_image_len(x: i128) {
        lemma_auto_spec_u128_to_from_le_bytes();
    }

    fn ra_type_code() -> (r: u64) {
        1
    }

    fn ra_elbyte() -> (r: u64) {
        16
    }

    fn to_le(self) -> (r: Vec<u8>) {
        u128_to_le_bytes(self as u128)
    }

    fn from_le(b: &[u8]) -> (r: i128) {
        proof {
            lemma_auto_spec_u128_to_from_le_bytes();
        }
        let u = u128_from_le_bytes(b);
        let r = u as i128;
        assert(r as u128 == u) by (bit_vector)
            requires
                r == u as i128,
        ;
        r
    }
}

impl RawArrayType for half::bf16 {
    open spec fn type_code() -> u64 {
        5
    }

    open spec fn width() -> nat {
        2
    }

    open spec fn le_image(x: half::bf16) -> Seq<u8> {
        spec_u16_to_le_bytes(bf16_bits(x))
    }

    proof fn lemma_width() {
    }

    proof fn lemma_image_len(x: half::bf16) {
        lemma_auto_spec_u16_to_from_le_bytes();
    }

    fn ra_type_code() -> (r: u64) {
        5
    }

    fn ra_elbyte() -> (r: u64) {
        2
    }

    fn to_le(self) -> (r: Vec<u8>) {
        u16_to_le_bytes(self.to_bits())
    }

    fn from_le(b: &[u8]) -> (r: half::bf16) {
        proof {
            lemma_auto_spec_u16_to_from_le_bytes();
        }
        half::bf16::from_bits(u16_from_le_bytes(b))
    }
}

} // verus!
