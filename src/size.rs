use vstd::prelude::*;

verus! {

/// The byte length of a transform's output, where it has a natural one.
pub trait ToCompressedSize {
    /// What `to_compressed_size` returns.
    spec fn compressed_size(&self) -> Option<usize>;

    fn to_compressed_size(&self) -> (r: Option<usize>)
        ensures
            r == self.compressed_size(),
    ;
}

impl<'a> ToCompressedSize for &'a [u8] {
    open spec fn compressed_size(&self) -> Option<usize> {
        Some(self@.len() as usize)
    }

    fn to_compressed_size(&self) -> (r: Option<usize>) {
        Some(self.len())
    }
}

impl ToCompressedSize for Vec<u8> {
    open spec fn compressed_size(&self) -> Option<usize> {
        Some(self@.len() as usize)
    }

    fn to_compressed_size(&self) -> (r: Option<usize>) {
        Some(self.len())
    }
}

impl ToCompressedSize for () {
    open spec fn compressed_size(&self) -> Option<usize> {
        None
    }

    fn to_compressed_size(&self) -> (r: Option<usize>) {
        None
    }
}

} // verus!
