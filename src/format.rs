//! The on-disk layout: header constants, the error kinds of a read, and the
//! byte image of a sequence of elements.

use crate::element::RawArrayType;
use vstd::bytes::*;
use vstd::prelude::*;
use vstd::string::StringExecFns;
use vstd::slice::slice_subrange;

verus! {

/// Sentinel at offset 0 of every file: the ASCII bytes "rawarray".
pub const MAGIC_NUMBER: u64 = 0x7961_7272_6177_6172;

/// Flag bit: the payload is big-endian.
pub const FLAG_BIG_ENDIAN: u64 = 1;

/// Flag bit: the payload is run-length encoded.
pub const FLAG_ENCODED: u64 = 2;

/// Flag bit: each element is a single bit.
pub const FLAG_BITS: u64 = 4;

/// Every flag bit that the format defines.
pub const ALL_KNOWN_FLAGS: u64 = FLAG_BIG_ENDIAN | FLAG_ENCODED | FLAG_BITS;

/// The flag bits whose payload this reader can interpret. None of the
/// defined ones is implemented yet, so a flagged file is refused rather than
/// misread.
pub const SUPPORTED_FLAGS: u64 = 0;

/// Why a byte sequence is not a readable RawArray of the requested type.
#[derive(Clone, Copy, Debug, PartialEq, Eq, Structural)]
pub enum RawArrayError {
    /// The magic number is missing or wrong: not a RawArray file.
    InvalidFormat,
    /// A flag bit is set that this reader does not implement.
    UnsupportedFeature,
    /// The element type code or width differs from the requested type.
    TypeMismatch,
    /// The declared size disagrees with the dimensions and element width.
    CorruptHeader,
    /// The bytes end before the header or the payload does.
    TruncatedFile,
}

/// Whether a flags word asks only for what this reader implements.
pub open spec fn flags_supported(flags: u64) -> bool {
    flags & !SUPPORTED_FLAGS == 0
}

/// Number of elements described by a dimension vector.
pub open spec fn product(dims: Seq<u64>) -> int
    decreases dims.len(),
{
    if dims.len() == 0 {
        1
    } else {
        product(dims.drop_last()) * dims.last()
    }
}

/// The bytes that a sequence of elements occupies in a file, one little-endian
/// image after the other.
pub open spec fn image<T: RawArrayType>(s: Seq<T>) -> Seq<u8>
    decreases s.len(),
{
    if s.len() == 0 {
        Seq::empty()
    } else {
        image(s.drop_last()) + T::le_image(s.last())
    }
}

/// The `i`-th 8-byte little-endian word of a byte sequence.
pub open spec fn word(b: Seq<u8>, i: int) -> u64 {
    spec_u64_from_le_bytes(b.subrange(8 * i, 8 * i + 8))
}

pub proof fn lemma_product_nonneg(dims: Seq<u64>)
    ensures
        product(dims) >= 0,
    decreases dims.len(),
{
    if dims.len() > 0 {
        lemma_product_nonneg(dims.drop_last());
        let p = product(dims.drop_last());
        let l = dims.last() as int;
        assert(p * l >= 0) by (nonlinear_arith)
            requires
                p >= 0,
                l >= 0,
        ;
    }
}

pub proof fn lemma_image_len<T: RawArrayType>(s: Seq<T>)
    ensures
        image(s).len() == s.len() * T::width(),
    decreases s.len(),
{
    if s.len() > 0 {
        lemma_image_len(s.drop_last());
        T::lemma_image_len(s.last());
        let n = s.len() as int;
        let w = T::width() as int;
        assert((n - 1) * w + w == n * w) by (nonlinear_arith);
    }
}

pub proof fn lemma_image_push<T: RawArrayType>(s: Seq<T>, x: T)
    ensures
        image(s.push(x)) == image(s) + T::le_image(x),
{
    assert(s.push(x).drop_last() =~= s);
}

/// The `i`-th element's image sits at bytes `i * width .. (i + 1) * width`.
pub proof fn lemma_image_chunk<T: RawArrayType>(s: Seq<T>, i: int)
    requires
        0 <= i < s.len(),
    ensures
        image(s).subrange(i * T::width(), i * T::width() + T::width()) == T::le_image(s[i]),
    decreases s.len(),
{
    let w = T::width() as int;
    let n = s.len() as int;
    let init = s.drop_last();
    lemma_image_len(init);
    T::lemma_image_len(s.last());
    T::lemma_width();
    if i == n - 1 {
        assert(image(s).subrange(i * w, i * w + w) =~= T::le_image(s[i]));
    } else {
        lemma_image_chunk(init, i);
        assert(i * w + w <= (n - 1) * w) by (nonlinear_arith)
            requires
                i < n - 1,
                w >= 1,
        ;
        assert(0 <= i * w) by (nonlinear_arith)
            requires
                0 <= i,
                w >= 1,
        ;
        assert(image(s).subrange(i * w, i * w + w) =~= image(init).subrange(i * w, i * w + w));
    }
}

/// Appends the image of each element of `s` to `out`.
pub fn encode_elements<T: RawArrayType>(s: &[T], out: &mut Vec<u8>)
    ensures
        final(out)@ == old(out)@ + image(s@),
{
    let mut i: usize = 0;
    while i < s.len()
        invariant
            i <= s@.len(),
            out@ == old(out)@ + image(s@.subrange(0, i as int)),
        decreases s@.len() - i,
    {
        let x = s[i];
        let mut bytes = x.to_le();
        out.append(&mut bytes);
        proof {
            lemma_image_push(s@.subrange(0, i as int), x);
            assert(s@.subrange(0, i as int).push(x) =~= s@.subrange(0, i + 1));
        }
        i = i + 1;
    }
    assert(s@.subrange(0, i as int) =~= s@);
}

/// Decodes `n` consecutive elements of `b`, starting at byte `start`.
pub fn decode_elements<T: RawArrayType>(b: &[u8], start: usize, n: usize) -> (r: Vec<T>)
    requires
        start + n * T::width() <= b@.len(),
    ensures
        r@.len() == n,
        image(r@) == b@.subrange(start as int, start + n * T::width()),
{
    proof {
        T::lemma_width();
    }
    let w = T::ra_elbyte() as usize;
    let len = b.len();
    let mut r: Vec<T> = Vec::new();
    let mut i: usize = 0;
    let mut pos: usize = start;
    while i < n
        invariant
            w == T::width(),
            1 <= w <= 16,
            start + n * w <= b@.len(),
            i <= n,
            pos == start + i * w,
            start <= pos <= b@.len(),
            len == b@.len(),
            r@.len() == i,
            image(r@) == b@.subrange(start as int, pos as int),
        decreases n - i,
    {
        proof {
            assert(pos + w <= start + n * w) by (nonlinear_arith)
                requires
                    pos == start + i * w,
                    i < n,
            ;
        }
        let x = T::from_le(slice_subrange(b, pos, pos + w));
        proof {
            lemma_image_push(r@, x);
            assert(b@.subrange(start as int, pos as int) + b@.subrange(pos as int, pos + w)
                =~= b@.subrange(start as int, pos + w));
        }
        r.push(x);
        pos = pos + w;
        i = i + 1;
        assert(pos == start + i * w) by (nonlinear_arith)
            requires
                pos == start + (i - 1) * w + w,
        ;
        assert(pos <= b@.len()) by (nonlinear_arith)
            requires
                pos == start + i * w,
                i <= n,
                start + n * w <= b@.len(),
                w >= 1,
        ;
    }
    r
}

/// The word at index `i` of a sequence of words, read back from its image.
pub proof fn lemma_word_of_image(ws: Seq<u64>, rest: Seq<u8>, i: int)
    requires
        0 <= i < ws.len(),
    ensures
        word(image(ws) + rest, i) == ws[i],
{
    lemma_image_len(ws);
    lemma_image_chunk(ws, i);
    lemma_auto_spec_u64_to_from_le_bytes();
    assert(0 <= 8 * i && 8 * i + 8 <= 8 * ws.len());
    assert((image(ws) + rest).subrange(8 * i, 8 * i + 8) =~= image(ws).subrange(8 * i, 8 * i + 8));
}

/// Reads the `i`-th 8-byte little-endian word of `b`.
pub fn read_word(b: &[u8], i: usize) -> (r: u64)
    requires
        8 * i + 8 <= b@.len(),
    ensures
        r == word(b@, i as int),
{
    let len = b.len();
    assert(8 * i + 8 <= len);
    u64_from_le_bytes(slice_subrange(b, 8 * i, 8 * i + 8))
}

/// Names the flag bits that are set, for diagnostics.
pub open spec fn flag_names(flags: u64) -> Seq<char> {
    (if flags & FLAG_BIG_ENDIAN != 0 {
        "BigEndian "@
    } else {
        "LittleEndian "@
    }) + (if flags & FLAG_ENCODED != 0 {
        "RLE "@
    } else {
        Seq::empty()
    }) + (if flags & FLAG_BITS != 0 {
        "BitArray"@
    } else {
        Seq::empty()
    })
}

/// Renders a flags word as the names of its bits.
pub fn flags_as_string(flags: u64) -> (r: String)
    ensures
        r@ == flag_names(flags),
{
    let mut s = String::new();
    if flags & FLAG_BIG_ENDIAN != 0 {
        s.append("BigEndian ");
    } else {
        s.append("LittleEndian ");
    }
    if flags & FLAG_ENCODED != 0 {
        s.append("RLE ");
    }
    if flags & FLAG_BITS != 0 {
        s.append("BitArray");
    }
    assert(s@ =~= flag_names(flags));
    s
}

} // verus!
