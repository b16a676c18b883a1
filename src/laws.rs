//! What holds of the format across calls: reading back what was written, and
//! the gates that a read applies.

use crate::array::{dims_of, header_error, header_len, payload_of, read_error, read_view, RawArrayView};
use crate::element::RawArrayType;
use crate::format::{
    flags_supported, image, lemma_image_len, lemma_word_of_image, product, word, RawArrayError,
    ALL_KNOWN_FLAGS, MAGIC_NUMBER, SUPPORTED_FLAGS,
};
use vstd::prelude::*;

verus! {

/// The words and lengths of the file image of a valid array.
proof fn lemma_file_image_layout<T: RawArrayType>(v: RawArrayView<T>)
    requires
        v.valid(),
    ensures
        word(v.file_image(), 0) == MAGIC_NUMBER,
        word(v.file_image(), 1) == v.flags,
        word(v.file_image(), 2) == v.eltype,
        word(v.file_image(), 3) == v.elbyte,
        word(v.file_image(), 4) == v.size,
        word(v.file_image(), 5) == v.ndims,
        dims_of(v.file_image()) == v.dims,
        header_len(v.file_image()) == 8 * (6 + v.dims.len()),
        v.file_image().len() == header_len(v.file_image()) + v.size,
        payload_of(v.file_image()) == image(v.data),
{
    let words = v.header_words();
    let data = image(v.data);
    let f = v.file_image();
    lemma_image_len(words);
    lemma_image_len(v.data);
    assert forall|i: int| 0 <= i < words.len() implies word(f, i) == words[i] by {
        lemma_word_of_image(words, data, i);
    }
    assert(word(f, 0) == words[0]);
    assert(word(f, 1) == words[1]);
    assert(word(f, 2) == words[2]);
    assert(word(f, 3) == words[3]);
    assert(word(f, 4) == words[4]);
    assert(word(f, 5) == words[5]);
    assert forall|k: int| 0 <= k < v.dims.len() implies word(f, 6 + k) == v.dims[k] by {
        assert(word(f, 6 + k) == words[6 + k]);
    }
    assert(dims_of(f) =~= v.dims);
    assert(data.len() == v.size) by (nonlinear_arith)
        requires
            data.len() == v.data.len() * T::width(),
            v.data.len() == product(v.dims),
            v.size == v.elbyte * product(v.dims),
            v.elbyte == T::width(),
    ;
    assert(payload_of(f) =~= data);
}

/// Writing a valid array and reading the bytes back as the same element type
/// succeeds, and whatever array the read yields has the written array's
/// header fields and dimensions, and elements equal to its elements bit for
/// bit.
pub proof fn lemma_round_trip<T: RawArrayType>(v: RawArrayView<T>, a: RawArrayView<T>)
    requires
        v.valid(),
    ensures
        read_error::<T>(v.file_image()) is None,
        read_view(v.file_image(), a) ==> {
            &&& a.flags == v.flags
            &&& a.eltype == v.eltype
            &&& a.elbyte == v.elbyte
            &&& a.size == v.size
            &&& a.ndims == v.ndims
            &&& a.dims == v.dims
            &&& a.data.len() == v.data.len()
            &&& image(a.data) == image(v.data)
        },
{
    lemma_file_image_layout(v);
    T::lemma_width();
    if read_view(v.file_image(), a) {
        lemma_image_len(a.data);
        lemma_image_len(v.data);
        let w = T::width() as int;
        assert(a.data.len() == v.data.len()) by (nonlinear_arith)
            requires
                a.data.len() * w == v.data.len() * w,
                w >= 1,
        ;
    }
}

/// A file that reads as an array declares a payload size of exactly the
/// element width times the number of elements; one whose header passes every
/// earlier check but breaks that equation is refused as corrupt.
pub proof fn lemma_size_matches_dims<T: RawArrayType>(b: Seq<u8>)
    ensures
        read_error::<T>(b) is None ==> word(b, 4) == word(b, 3) * product(dims_of(b)),
        ({
            &&& b.len() >= 48
            &&& b.len() >= header_len(b)
            &&& word(b, 0) == MAGIC_NUMBER
            &&& flags_supported(word(b, 1))
            &&& word(b, 2) == T::type_code()
            &&& word(b, 3) == T::width()
            &&& word(b, 4) != word(b, 3) * product(dims_of(b))
        }) ==> read_error::<T>(b) == Some(RawArrayError::CorruptHeader),
{
}

/// Bytes that do not begin with the magic number are refused as not being a
/// RawArray file, whatever follows.
pub proof fn lemma_magic_gate<T: RawArrayType>(b: Seq<u8>)
    requires
        b.len() < 8 || word(b, 0) != MAGIC_NUMBER,
    ensures
        read_error::<T>(b) == Some(RawArrayError::InvalidFormat),
{
}

/// A file with the magic number and a flag bit outside the defined ones is
/// refused as needing an unsupported feature, whatever follows.
pub proof fn lemma_flag_gate<T: RawArrayType>(b: Seq<u8>)
    requires
        b.len() >= 16,
        word(b, 0) == MAGIC_NUMBER,
        word(b, 1) & !ALL_KNOWN_FLAGS != 0,
    ensures
        read_error::<T>(b) == Some(RawArrayError::UnsupportedFeature),
{
    let f = word(b, 1);
    assert(f & !7u64 != 0 ==> f & !0u64 != 0) by (bit_vector);
    assert(1u64 | 2u64 | 4u64 == 7u64) by (bit_vector);
    assert(SUPPORTED_FLAGS == 0);
}

/// A valid array written with element type `A` and read as an element type
/// `B` with another type code or width is refused as a type mismatch.
pub proof fn lemma_type_enforced<A: RawArrayType, B: RawArrayType>(v: RawArrayView<A>)
    requires
        v.valid(),
        A::type_code() != B::type_code() || A::width() != B::width(),
    ensures
        read_error::<B>(v.file_image()) == Some(RawArrayError::TypeMismatch),
{
    lemma_file_image_layout(v);
    assert(header_error::<B>(v.file_image()) == Some(RawArrayError::TypeMismatch));
}

} // verus!
