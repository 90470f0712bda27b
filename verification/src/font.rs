use vstd::prelude::*;

use crate::blob::Blob;

verus! {

/// Owned shareable font resource.
#[derive(Clone, Debug, PartialEq)]
pub struct Font {
    /// Blob containing the content of the font file.
    pub data: Blob<u8>,
    /// Index of the font in a collection, or 0 for a single font.
    pub index: u32,
}

impl Font {
    /// Creates a new font with the given data and collection index.
    pub fn new(data: Blob<u8>, index: u32) -> (r: Self)
        ensures
            r.data@ == data@,
            r.data.spec_id() == data.spec_id(),
            r.index == index,
    {
        Font { data, index }
    }
}

} // verus!
