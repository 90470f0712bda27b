use std::sync::Arc;
use vstd::prelude::*;

verus! {

/// Shared data with an associated identifier.
///
/// The identifier names the underlying allocation: handles produced by
/// cloning share it, and [`Blob::new`] draws a fresh one for each new
/// allocation. Equality of blobs is equality of identifiers.
#[derive(Debug)]
pub struct Blob<T> {
    data: Arc<Vec<T>>,
    id: u64,
}

impl<T> View for Blob<T> {
    type V = Seq<T>;

    closed spec fn view(&self) -> Seq<T> {
        self.data@
    }
}

/// Relies on `linebender_resource_handle::Blob::new`, which draws each
/// identifier from a process-wide atomic counter; used here only to mint
/// the identifier of a freshly created blob.
#[verifier::external_body]
fn fresh_blob_id() -> u64 {
    linebender_resource_handle::Blob::<u8>::new(Arc::new(Vec::<u8>::new())).id()
}

/// Relies on std's `Arc::clone`: the new handle refers to the same
/// allocation, so it holds the same elements.
#[verifier::external_body]
fn arc_clone<T>(a: &Arc<Vec<T>>) -> (r: Arc<Vec<T>>)
    ensures
        r@ == a@,
{
    Arc::clone(a)
}

/// Relies on std's `Arc::strong_count`: the number of strong handles to
/// the allocation, which includes at least the one held by the caller.
#[verifier::external_body]
fn arc_strong_count<T>(a: &Arc<Vec<T>>) -> (r: usize)
    ensures
        r >= 1,
{
    Arc::strong_count(a)
}

impl<T> Blob<T> {
    /// The identifier associated with the data, as a spec-level value.
    pub closed spec fn spec_id(&self) -> u64 {
        self.id
    }

    /// Creates a new blob from the given data and generates a fresh
    /// identifier for it.
    pub fn new(data: Arc<Vec<T>>) -> (r: Self)
        ensures
            r@ == data@,
    {
        Blob { data, id: fresh_blob_id() }
    }

    /// Creates a new blob from the given data and identifier.
    ///
    /// Mixing this with [`Blob::new`], or reusing an identifier for
    /// different data, can make identifier equality disagree with data
    /// equality.
    pub fn from_raw_parts(data: Arc<Vec<T>>, id: u64) -> (r: Self)
        ensures
            r@ == data@,
            r.spec_id() == id,
    {
        Blob { data, id }
    }

    /// Consumes self and returns the inner components of the blob.
    pub fn into_raw_parts(self) -> (r: (Arc<Vec<T>>, u64))
        ensures
            r.0@ == self@,
            r.1 == self.spec_id(),
    {
        (self.data, self.id)
    }

    /// Returns the length of the data.
    pub fn len(&self) -> (r: usize)
        ensures
            r == self@.len(),
    {
        (*self.data).len()
    }

    /// Returns true if the blob is empty.
    pub fn is_empty(&self) -> (r: bool)
        ensures
            r == (self@.len() == 0),
    {
        self.len() == 0
    }

    /// Returns a reference to the underlying data.
    pub fn data(&self) -> (r: &[T])
        ensures
            r@ == self@,
    {
        (*self.data).as_slice()
    }

    /// Returns the identifier associated with the data.
    pub fn id(&self) -> (r: u64)
        ensures
            r == self.spec_id(),
    {
        self.id
    }

    /// Returns the number of existing strong pointers to this blob's
    /// allocation; at least one, for the handle this is called on.
    pub fn strong_count(&self) -> (r: usize)
        ensures
            r >= 1,
    {
        arc_strong_count(&self.data)
    }
}

impl<T> Clone for Blob<T> {
    /// A cloned handle shares the allocation, so it carries the same data
    /// and the same identifier.
    fn clone(&self) -> (res: Self)
        ensures
            res@ == self@,
            res.spec_id() == self.spec_id(),
    {
        Blob { data: arc_clone(&self.data), id: self.id }
    }
}

impl<T> PartialEq for Blob<T> {
    /// Blobs are equal when their identifiers are equal.
    fn eq(&self, other: &Self) -> (r: bool) {
        self.id == other.id
    }
}

impl<T> vstd::std_specs::cmp::PartialEqSpecImpl for Blob<T> {
    open spec fn obeys_eq_spec() -> bool {
        true
    }

    open spec fn eq_spec(&self, other: &Self) -> bool {
        self.spec_id() == other.spec_id()
    }
}

} // verus!
