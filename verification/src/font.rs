//! The shared font resource.

use vstd::prelude::*;

use crate::blob::Blob;

verus! {

/// Owned shareable font resource.
#[derive(Debug)]
pub struct Font {
    /// Blob containing the content of the font file.
    pub data: Blob<u8>,
    /// Index of the font in a collection, or 0 for a single font.
    pub index: u32,
}

impl Font {
    /// Creates a new font with the given data and collection index.
    pub fn new(data: Blob<u8>, index: u32) -> (r: Self)
        ensures
            r.data == data,
            r.index == index,
    {
        Font { data, index }
    }
}

impl Clone for Font {
    /// The copy shares the same data and keeps the index.
    fn clone(&self) -> (r: Self)
        ensures
            r == *self,
    {
        Font { data: self.data.clone(), index: self.index }
    }
}

} // verus!
