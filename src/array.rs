//! The array container: header metadata together with the element buffer.

use crate::element::RawArrayType;
use crate::format::{
    decode_elements, encode_elements, flags_supported, image, lemma_product_nonneg, product,
    read_word, word, RawArrayError, MAGIC_NUMBER, SUPPORTED_FLAGS,
};
use vstd::prelude::*;
use vstd::slice::slice_to_vec;

verus! {

/// The mathematical content of a `RawArray`: its header fields, its shape and
/// its elements.
pub struct RawArrayView<T> {
    pub flags: u64,
    pub eltype: u64,
    pub elbyte: u64,
    pub size: u64,
    pub ndims: u64,
    pub dims: Seq<u64>,
    pub data: Seq<T>,
}

impl<T: RawArrayType> RawArrayView<T> {
    /// The header agrees with the element type and with the buffer.
    pub open spec fn valid(self) -> bool {
        &&& flags_supported(self.flags)
        &&& self.eltype == T::type_code()
        &&& self.elbyte == T::width()
        &&& self.ndims == self.dims.len()
        &&& self.data.len() == product(self.dims)
        &&& self.size == self.elbyte * product(self.dims)
    }

    /// The header as the sequence of words that a file stores.
    pub open spec fn header_words(self) -> Seq<u64> {
        seq![MAGIC_NUMBER, self.flags, self.eltype, self.elbyte, self.size, self.ndims]
            + self.dims
    }

    /// The bytes of a file that holds this array.
    pub open spec fn file_image(self) -> Seq<u8> {
        image(self.header_words()) + image(self.data)
    }
}

/// Number of header bytes that a file declares: six fixed words and one word
/// per dimension.
pub open spec fn header_len(b: Seq<u8>) -> int {
    8 * (6 + word(b, 5))
}

/// The dimension vector that a file declares.
pub open spec fn dims_of(b: Seq<u8>) -> Seq<u64> {
    Seq::new(word(b, 5) as nat, |k: int| word(b, 6 + k))
}

/// The payload bytes that a file declares.
pub open spec fn payload_of(b: Seq<u8>) -> Seq<u8> {
    b.subrange(header_len(b), header_len(b) + word(b, 4))
}

/// A product clamped to 2^64: exact below that, and every larger value
/// collapses to 2^64.
pub open spec fn capped(x: int) -> int {
    if x < 0x1_0000_0000_0000_0000 {
        x
    } else {
        0x1_0000_0000_0000_0000
    }
}

/// The first failed check of a header, read as an array of `T`, in the order
/// in which the fields are read; `None` when the header is sound.
pub open spec fn header_error<T: RawArrayType>(b: Seq<u8>) -> Option<RawArrayError> {
    if b.len() < 8 || word(b, 0) != MAGIC_NUMBER {
        Some(RawArrayError::InvalidFormat)
    } else if b.len() < 16 {
        Some(RawArrayError::TruncatedFile)
    } else if !flags_supported(word(b, 1)) {
        Some(RawArrayError::UnsupportedFeature)
    } else if b.len() < 24 {
        Some(RawArrayError::TruncatedFile)
    } else if word(b, 2) != T::type_code() {
        Some(RawArrayError::TypeMismatch)
    } else if b.len() < 32 {
        Some(RawArrayError::TruncatedFile)
    } else if word(b, 3) != T::width() {
        Some(RawArrayError::TypeMismatch)
    } else if b.len() < 48 || b.len() < header_len(b) {
        Some(RawArrayError::TruncatedFile)
    } else if word(b, 4) != word(b, 3) * product(dims_of(b)) {
        Some(RawArrayError::CorruptHeader)
    } else {
        None
    }
}

/// Why `b` is not a file of an array of `T`; `None` when it is one.
pub open spec fn read_error<T: RawArrayType>(b: Seq<u8>) -> Option<RawArrayError> {
    if header_error::<T>(b) is Some {
        header_error::<T>(b)
    } else if b.len() < header_len(b) + word(b, 4) {
        Some(RawArrayError::TruncatedFile)
    } else {
        None
    }
}

/// `a` is what the file `b` holds: its header fields, its dimensions, and
/// elements whose images are the payload bytes.
pub open spec fn read_view<T: RawArrayType>(b: Seq<u8>, a: RawArrayView<T>) -> bool {
    &&& a.flags == word(b, 1)
    &&& a.eltype == word(b, 2)
    &&& a.elbyte == word(b, 3)
    &&& a.size == word(b, 4)
    &&& a.ndims == word(b, 5)
    &&& a.dims == dims_of(b)
    &&& image(a.data) == payload_of(b)
}

/// The number of elements that `dims` describes, clamped to 2^64.
fn dims_product_capped(dims: &[u64]) -> (p: u128)
    ensures
        p == capped(product(dims@)),
{
    let cap: u128 = 0x1_0000_0000_0000_0000;
    let mut p: u128 = 1;
    let mut k: usize = 0;
    while k < dims.len()
        invariant
            k <= dims@.len(),
            cap == 0x1_0000_0000_0000_0000u128,
            p == capped(product(dims@.subrange(0, k as int))),
        decreases dims@.len() - k,
    {
        let d = dims[k] as u128;
        proof {
            let pre = dims@.subrange(0, k as int);
            assert(dims@.subrange(0, k + 1).drop_last() =~= pre);
            lemma_product_nonneg(pre);
            let whole = product(pre);
            assert(p * d < 0x1_0000_0000_0000_0000_0000_0000_0000_0000) by (nonlinear_arith)
                requires
                    p <= 0x1_0000_0000_0000_0000u128,
                    d < 0x1_0000_0000_0000_0000u128,
            ;
            assert(capped(p * d) == capped(whole * d)) by (nonlinear_arith)
                requires
                    p == capped(whole),
                    whole >= 0,
                    d >= 0,
            ;
        }
        let q = p * d;
        if q > cap {
            p = cap;
        } else {
            p = q;
        }
        k = k + 1;
    }
    assert(dims@.subrange(0, k as int) =~= dims@);
    p
}

/// A dense n-dimensional array of `T`, stored flat in row-major order.
#[derive(Clone, Debug, PartialEq)]
pub struct RawArray<T> {
    flags: u64,
    eltype: u64,
    elbyte: u64,
    size: u64,
    ndims: u64,
    dims: Vec<u64>,
    data: Vec<T>,
}

impl<T> View for RawArray<T> {
    type V = RawArrayView<T>;

    closed spec fn view(&self) -> RawArrayView<T> {
        RawArrayView {
            flags: self.flags,
            eltype: self.eltype,
            elbyte: self.elbyte,
            size: self.size,
            ndims: self.ndims,
            dims: self.dims@,
            data: self.data@,
        }
    }
}

impl<T: RawArrayType> Default for RawArray<T> {
    /// An empty one-dimensional array.
    fn default() -> (r: RawArray<T>)
        ensures
            r.wf(),
            r@.flags == 0,
            r@.dims == seq![0u64],
            r@.data == Seq::<T>::empty(),
    {
        RawArray::new()
    }
}

impl<T: RawArrayType> RawArray<T> {
    /// Well-formedness: every constructor establishes it and every method
    /// keeps it.
    pub open spec fn wf(&self) -> bool {
        self@.valid()
    }

    /// An empty one-dimensional array.
    pub fn new() -> (r: RawArray<T>)
        ensures
            r.wf(),
            r@.flags == 0,
            r@.dims == seq![0u64],
            r@.data == Seq::<T>::empty(),
    {
        let v: Vec<T> = Vec::new();
        assert(v@.len() * T::width() == 0);
        RawArray::from_vec(v)
    }

    /// A one-dimensional array holding the elements of `v`.
    pub fn from_vec(v: Vec<T>) -> (r: RawArray<T>)
        requires
            v@.len() * T::width() <= u64::MAX,
        ensures
            r.wf(),
            r@.flags == 0,
            r@.dims == seq![v@.len() as u64],
            r@.data == v@,
    {
        let elbyte = T::ra_elbyte();
        let n = v.len() as u64;
        let size = n * elbyte;
        let dims = vec![n];
        proof {
            assert(flags_supported(0u64)) by (bit_vector);
            assert(dims@.drop_last() =~= Seq::<u64>::empty());
            reveal_with_fuel(product, 2);
            assert(product(dims@) == n as int);
            assert(n as int == v@.len());
            assert(size == elbyte * n) by (nonlinear_arith)
                requires
                    size == n * elbyte,
            ;
        }
        RawArray { flags: 0, eltype: T::ra_type_code(), elbyte, size, ndims: 1, dims, data: v }
    }

    /// The element buffer, giving up the header.
    pub fn into_vec(self) -> (r: Vec<T>)
        ensures
            r@ == self@.data,
    {
        self.data
    }

    /// An array with the same header as this one and the elements `data`.
    pub fn clone_with_data(&self, data: Vec<T>) -> (r: RawArray<T>)
        requires
            self.wf(),
            data@.len() == self@.data.len(),
        ensures
            r.wf(),
            r@ == (RawArrayView { data: data@, ..self@ }),
    {
        RawArray {
            flags: self.flags,
            eltype: self.eltype,
            elbyte: self.elbyte,
            size: self.size,
            ndims: self.ndims,
            dims: slice_to_vec(self.dims.as_slice()),
            data,
        }
    }

    /// Feature flags: endianness, encoding, bit packing.
    pub fn flags(&self) -> (r: u64)
        ensures
            r == self@.flags,
    {
        self.flags
    }

    /// Element type code.
    pub fn eltype(&self) -> (r: u64)
        ensures
            r == self@.eltype,
    {
        self.eltype
    }

    /// Bytes per element.
    pub fn elbyte(&self) -> (r: u64)
        ensures
            r == self@.elbyte,
    {
        self.elbyte
    }

    /// Total bytes of element data.
    pub fn size(&self) -> (r: u64)
        ensures
            r == self@.size,
    {
        self.size
    }

    /// Number of dimensions.
    pub fn ndims(&self) -> (r: u64)
        ensures
            r == self@.ndims,
    {
        self.ndims
    }

    /// A copy of the dimensions, outermost first.
    pub fn dims(&self) -> (r: Vec<u64>)
        ensures
            r@ == self@.dims,
    {
        slice_to_vec(self.dims.as_slice())
    }

    /// A copy of the flat element buffer.
    pub fn data(&self) -> (r: Vec<T>)
        ensures
            r@ == self@.data,
    {
        slice_to_vec(self.data.as_slice())
    }

    /// The dimensions, borrowed.
    pub fn dims_as_ref(&self) -> (r: &Vec<u64>)
        ensures
            r@ == self@.dims,
    {
        &self.dims
    }

    /// The flat element buffer, borrowed.
    pub fn data_as_ref(&self) -> (r: &Vec<T>)
        ensures
            r@ == self@.data,
    {
        &self.data
    }

    /// Gives the array new dimensions with the same number of elements. The
    /// buffer is left as it is: only its shape is read differently.
    pub fn reshape(&mut self, new_dims: Vec<u64>)
        requires
            old(self).wf(),
            product(new_dims@) == product(old(self)@.dims),
        ensures
            final(self).wf(),
            final(self)@ == (RawArrayView {
                dims: new_dims@,
                ndims: new_dims@.len() as u64,
                ..old(self)@
            }),
    {
        self.ndims = new_dims.len() as u64;
        self.dims = new_dims;
    }

    /// Reads and checks the header of `b`, filling in every field but the
    /// elements.
    fn read_header(&mut self, b: &[u8]) -> (r: Result<(), RawArrayError>)
        ensures
            match r {
                Ok(_) => {
                    &&& header_error::<T>(b@) is None
                    &&& final(self)@.flags == word(b@, 1)
                    &&& final(self)@.eltype == word(b@, 2)
                    &&& final(self)@.elbyte == word(b@, 3)
                    &&& final(self)@.size == word(b@, 4)
                    &&& final(self)@.ndims == word(b@, 5)
                    &&& final(self)@.dims == dims_of(b@)
                },
                Err(e) => header_error::<T>(b@) == Some(e),
            },
    {
        let len = b.len();
        if len < 8 {
            return Err(RawArrayError::InvalidFormat);
        }
        let magic = read_word(b, 0);
        if magic != MAGIC_NUMBER {
            return Err(RawArrayError::InvalidFormat);
        }
        if len < 16 {
            return Err(RawArrayError::TruncatedFile);
        }
        let flags = read_word(b, 1);
        if flags & !SUPPORTED_FLAGS != 0 {
            return Err(RawArrayError::UnsupportedFeature);
        }
        if len < 24 {
            return Err(RawArrayError::TruncatedFile);
        }
        let eltype = read_word(b, 2);
        if eltype != T::ra_type_code() {
            return Err(RawArrayError::TypeMismatch);
        }
        if len < 32 {
            return Err(RawArrayError::TruncatedFile);
        }
        let elbyte = read_word(b, 3);
        if elbyte != T::ra_elbyte() {
            return Err(RawArrayError::TypeMismatch);
        }
        if len < 48 {
            return Err(RawArrayError::TruncatedFile);
        }
        let size = read_word(b, 4);
        let ndims = read_word(b, 5);
        if 48 + 8 * (ndims as u128) > len as u128 {
            return Err(RawArrayError::TruncatedFile);
        }
        let n = ndims as usize;
        let mut dims: Vec<u64> = Vec::new();
        let mut k: usize = 0;
        while k < n
            invariant
                k <= n,
                n == word(b@, 5),
                48 + 8 * n <= b@.len(),
                len == b@.len(),
                dims@ =~= Seq::new(k as nat, |j: int| word(b@, 6 + j)),
            decreases n - k,
        {
            dims.push(read_word(b, 6 + k));
            k = k + 1;
        }
        assert(dims@ =~= dims_of(b@));
        let p = dims_product_capped(dims.as_slice());
        proof {
            T::lemma_width();
            lemma_product_nonneg(dims@);
            assert((p * elbyte == size) == (elbyte * product(dims@) == size)) by (nonlinear_arith)
                requires
                    p == capped(product(dims@)),
                    product(dims@) >= 0,
                    1 <= elbyte,
                    size < 0x1_0000_0000_0000_0000,
            ;
            assert(p * elbyte < 0x1_0000_0000_0000_0000_0000_0000_0000_0000) by (nonlinear_arith)
                requires
                    p <= 0x1_0000_0000_0000_0000u128,
                    elbyte < 0x1_0000_0000_0000_0000,
            ;
        }
        if p * (elbyte as u128) != size as u128 {
            return Err(RawArrayError::CorruptHeader);
        }
        self.flags = flags;
        self.eltype = eltype;
        self.elbyte = elbyte;
        self.size = size;
        self.ndims = ndims;
        self.dims = dims;
        Ok(())
    }

    /// Reads the payload that follows a header already read from `b`.
    fn read_data(&mut self, b: &[u8]) -> (r: Result<(), RawArrayError>)
        requires
            header_error::<T>(b@) is None,
            old(self)@.elbyte == word(b@, 3),
            old(self)@.size == word(b@, 4),
            old(self)@.ndims == word(b@, 5),
        ensures
            match r {
                Ok(_) => {
                    &&& b@.len() >= header_len(b@) + word(b@, 4)
                    &&& final(self)@ == (RawArrayView { data: final(self)@.data, ..old(self)@ })
                    &&& final(self)@.data.len() == product(dims_of(b@))
                    &&& image(final(self)@.data) == payload_of(b@)
                },
                Err(e) => e == RawArrayError::TruncatedFile && b@.len() < header_len(b@)
                    + word(b@, 4),
            },
    {
        let len = b.len();
        let hdr = 48 + 8 * (self.ndims as usize);
        if self.size as u128 > (len - hdr) as u128 {
            return Err(RawArrayError::TruncatedFile);
        }
        let ghost prod = product(dims_of(b@));
        proof {
            T::lemma_width();
            lemma_product_nonneg(dims_of(b@));
        }
        let n = (self.size / self.elbyte) as usize;
        proof {
            let w = self.elbyte as int;
            let s = self.size as int;
            assert(s / w == prod && prod * w == s) by (nonlinear_arith)
                requires
                    s == w * prod,
                    w >= 1,
                    prod >= 0,
            ;
        }
        let data = decode_elements::<T>(b, hdr, n);
        self.data = data;
        Ok(())
    }

    /// Reads an array of `T` from the bytes of a file. It fails with the
    /// first check that the bytes do not pass, and otherwise returns the
    /// array that the header and payload describe.
    pub fn from_bytes(b: &[u8]) -> (r: Result<RawArray<T>, RawArrayError>)
        ensures
            match r {
                Ok(a) => {
                    &&& read_error::<T>(b@) is None
                    &&& a.wf()
                    &&& read_view(b@, a@)
                },
                Err(e) => read_error::<T>(b@) == Some(e),
            },
    {
        let mut ra = RawArray::new();
        match ra.read_header(b) {
            Ok(_) => {},
            Err(e) => {
                return Err(e);
            },
        }
        match ra.read_data(b) {
            Ok(_) => {},
            Err(e) => {
                return Err(e);
            },
        }
        Ok(ra)
    }

    /// Appends the header words of this array to `out`.
    fn write_header(&self, out: &mut Vec<u8>)
        ensures
            final(out)@ == old(out)@ + image(self@.header_words()),
    {
        let mut words: Vec<u64> = vec![
            MAGIC_NUMBER,
            self.flags,
            self.eltype,
            self.elbyte,
            self.size,
            self.ndims,
        ];
        let mut dims = slice_to_vec(self.dims.as_slice());
        words.append(&mut dims);
        assert(words@ =~= self@.header_words());
        encode_elements(words.as_slice(), out);
    }

    /// Appends the image of the element buffer to `out`.
    fn write_data(&self, out: &mut Vec<u8>)
        ensures
            final(out)@ == old(out)@ + image(self@.data),
    {
        encode_elements(self.data.as_slice(), out);
    }

    /// The bytes of a file that holds this array: the header, then the
    /// elements' images.
    pub fn to_bytes(&self) -> (r: Vec<u8>)
        ensures
            r@ == self@.file_image(),
    {
        let mut out: Vec<u8> = Vec::new();
        self.write_header(&mut out);
        self.write_data(&mut out);
        assert(out@ =~= self@.file_image());
        out
    }
}

} // verus!
