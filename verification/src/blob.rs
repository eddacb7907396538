//! The shared immutable buffer that fonts and images hold.

use vstd::prelude::*;

use std::sync::Arc;

verus! {

/// Owned shareable data resource: an immutable buffer under a reference
/// count. Cloning shares the same buffer instead of copying it, and the
/// buffer lives as long as its longest-lived holder. Nothing here ever
/// writes through the sharing.
#[derive(Debug)]
pub struct Blob<T> {
    data: Arc<Vec<T>>,
}

impl<T> View for Blob<T> {
    type V = Seq<T>;

    closed spec fn view(&self) -> Seq<T> {
        self.data@
    }
}

/// Relies on std's Arc::clone: the copy shares the very same buffer.
#[verifier::external_body]
fn arc_share<T>(data: &Arc<Vec<T>>) -> (r: Arc<Vec<T>>)
    ensures
        r == *data,
{
    Arc::clone(data)
}

impl<T> Blob<T> {
    /// Moves the items into a fresh shared buffer.
    pub fn new(data: Vec<T>) -> (r: Self)
        ensures
            r@ == data@,
    {
        Blob { data: Arc::new(data) }
    }

    /// Length of the buffer in items.
    pub fn len(&self) -> (r: usize)
        ensures
            r == self@.len(),
    {
        self.data.len()
    }

    /// Read access to the whole buffer.
    pub fn as_slice(&self) -> (r: &[T])
        ensures
            r@ == self@,
    {
        self.data.as_slice()
    }
}

impl<T> Clone for Blob<T> {
    /// The copy shares the same buffer.
    fn clone(&self) -> (r: Self)
        ensures
            r == *self,
    {
        Blob { data: arc_share(&self.data) }
    }
}

/// Equality of two byte slices.
pub(crate) fn bytes_eq(a: &[u8], b: &[u8]) -> (r: bool)
    ensures
        r == (a@ == b@),
{
    if a.len() != b.len() {
        proof {
            assert(a@ != b@);
        }
        return false;
    }
    let n = a.len();
    let mut i: usize = 0;
    while i < n
        invariant
            n == a@.len() && n == b@.len(),
            i <= n,
            forall|k: int| 0 <= k < i ==> a@[k] == b@[k],
        decreases n - i,
    {
        if a[i] != b[i] {
            proof {
                assert(a@ != b@);
            }
            return false;
        }
        i += 1;
    }
    proof {
        assert(a@ =~= b@);
    }
    true
}

} // verus!
