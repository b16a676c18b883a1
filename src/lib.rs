//! Reading, writing and reshaping RawArray files: a minimal binary format
//! that stores one dense, homogeneously typed n-dimensional array.

pub mod half_bits;
pub mod element;
pub mod format;
pub mod array;
pub mod laws;
pub mod file;
