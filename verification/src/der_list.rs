//! DER blobs as the C interface wants them: the blobs and, beside them,
//! their lengths.
use vstd::prelude::*;

verus! {

/// A list of DER blobs together with their lengths. The two lists always have
/// the same length and each length is that of its blob; the lifetime stops the
/// list outliving what it points into.
#[derive(Debug, PartialEq, Eq)]
pub struct DerList<'a> {
    items: Vec<&'a [u8]>,
    lens: Vec<usize>,
}

impl<'a> View for DerList<'a> {
    type V = Seq<Seq<u8>>;

    /// The blobs, in order.
    closed spec fn view(&self) -> Seq<Seq<u8>> {
        Seq::new(self.items@.len(), |i: int| self.items@[i]@)
    }
}

impl<'a> DerList<'a> {
    #[verifier::type_invariant]
    closed spec fn well_formed(self) -> bool {
        &&& self.items@.len() == self.lens@.len()
        &&& forall|i: int| 0 <= i < self.lens@.len() ==> #[trigger] self.lens@[i] == self.items@[i]@.len()
    }

    /// The list of `items`, in their order.
    pub fn new(items: &[&'a [u8]]) -> (r: Self)
        ensures
            r@.len() == items@.len(),
            forall|i: int| 0 <= i < items@.len() ==> #[trigger] r@[i] == items@[i]@,
    {
        let mut blobs: Vec<&'a [u8]> = Vec::new();
        let mut lens: Vec<usize> = Vec::new();
        let mut k: usize = 0;
        while k < items.len()
            invariant
                0 <= k <= items@.len(),
                blobs@.len() == k,
                lens@.len() == k,
                forall|i: int| 0 <= i < k ==> #[trigger] blobs@[i] == items@[i],
                forall|i: int| 0 <= i < k ==> #[trigger] lens@[i] == items@[i]@.len(),
            decreases items@.len() - k,
        {
            let item: &'a [u8] = items[k];
            blobs.push(item);
            lens.push(item.len());
            k = k + 1;
        }
        DerList { items: blobs, lens }
    }

    /// The blobs, their lengths and their number, as the C interface takes
    /// them (`certs`, `lens`, `count`).
    pub fn as_parts(&self) -> (parts: (&[&'a [u8]], &[usize], usize))
        ensures
            parts.0@.len() == self@.len(),
            parts.1@.len() == self@.len(),
            parts.2 == self@.len(),
            forall|i: int| 0 <= i < self@.len() ==> #[trigger] parts.0@[i]@ == self@[i],
            forall|i: int| 0 <= i < self@.len() ==> #[trigger] parts.1@[i] == self@[i].len(),
    {
        proof {
            use_type_invariant(self);
        }
        (self.items.as_slice(), self.lens.as_slice(), self.items.len())
    }
}

} // verus!
