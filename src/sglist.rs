//! A caller-owned array of windows, as vectored I/O hands it over.
use vstd::prelude::*;

verus! {

/// Relies on std::ptr::eq: two slices of windows compare equal only when they
/// start at the same address and have the same length, so they are one and
/// the same array and hold the same windows.
#[verifier::external_body]
fn same_array(a: &[&[u8]], b: &[&[u8]]) -> (r: bool)
    ensures
        r ==> a@ == b@,
{
    std::ptr::eq(a, b)
}

/// A list of windows onto bytes that the caller owns.
///
/// The list neither copies nor owns the array or the bytes it points at; the
/// borrow keeps both alive and unchanged for as long as the list exists.
#[derive(Debug, Clone, Copy)]
pub struct SgList<'a> {
    /// The windows, in order.
    pub iovecs: &'a [&'a [u8]],
}

impl<'a> View for SgList<'a> {
    type V = Seq<Seq<u8>>;

    /// The bytes of each window, in order.
    open spec fn view(&self) -> Seq<Seq<u8>> {
        Seq::new(self.iovecs@.len(), |i: int| self.iovecs@[i]@)
    }
}

impl<'a> SgList<'a> {
    /// Wraps an array of windows; nothing is checked or copied.
    pub fn new(iovecs: &'a [&'a [u8]]) -> (r: Self)
        ensures
            r.iovecs@ == iovecs@,
            r@ == Seq::new(iovecs@.len(), |i: int| iovecs@[i]@),
    {
        SgList { iovecs }
    }

    /// Number of windows.
    pub fn count(&self) -> (r: usize)
        ensures
            r == self@.len(),
    {
        self.iovecs.len()
    }

    /// The window at position `i`.
    pub fn window(&self, i: usize) -> (r: &'a [u8])
        requires
            i < self@.len(),
        ensures
            r@ == self@[i as int],
    {
        self.iovecs[i]
    }
}

impl<'a> PartialEq for SgList<'a> {
    /// Lists are the same when they wrap one and the same array.
    fn eq(&self, other: &Self) -> (r: bool)
        ensures
            r ==> self.iovecs@ == other.iovecs@ && self@ == other@,
    {
        let r = same_array(self.iovecs, other.iovecs);
        proof {
            if r {
                assert(self@ =~= other@);
            }
        }
        r
    }
}

/// Whether two lists wrap the same array depends on where it lies in memory,
/// so `==` has no spec function to equal; its own `ensures` says what it
/// promises.
impl<'a> vstd::std_specs::cmp::PartialEqSpecImpl for SgList<'a> {
    open spec fn obeys_eq_spec() -> bool {
        false
    }

    open spec fn eq_spec(&self, other: &Self) -> bool {
        self@ == other@
    }
}

} // verus!
