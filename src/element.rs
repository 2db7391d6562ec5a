//! One segment of a payload: a borrowed window, or a run of zero bytes.
use vstd::prelude::*;

verus! {

/// Relies on std::ptr::eq: two byte slices compare equal only when they start
/// at the same address and have the same length, so they are one and the same
/// window and hold the same bytes.
#[verifier::external_body]
fn same_window(a: &[u8], b: &[u8]) -> (r: bool)
    ensures
        r ==> a@ == b@,
{
    std::ptr::eq(a, b)
}

/// A segment of a payload.
#[derive(Debug, Clone, Copy)]
pub enum Element<'a> {
    /// A run of zero bytes of the given size; no memory stands behind it.
    Zle(usize),
    /// A window onto bytes that the caller owns and keeps alive.
    Iovec(&'a [u8]),
}

/// The bytes of a run of `n` zeros.
pub open spec fn zeros(n: nat) -> Seq<u8> {
    Seq::new(n, |i: int| 0u8)
}

impl<'a> Element<'a> {
    /// The bytes this segment stands for.
    pub open spec fn bytes(self) -> Seq<u8> {
        match self {
            Element::Zle(n) => zeros(n as nat),
            Element::Iovec(b) => b@,
        }
    }

    /// A run of `size` zero bytes.
    pub fn zero(size: usize) -> (r: Self)
        ensures
            r == Element::Zle(size),
    {
        Element::Zle(size)
    }

    /// Number of bytes this segment stands for.
    pub fn len(&self) -> (r: usize)
        ensures
            r == self.bytes().len(),
    {
        match self {
            Element::Zle(n) => *n,
            Element::Iovec(b) => b.len(),
        }
    }

    /// The byte at position `i`, produced without materialising a run.
    pub fn byte_at(&self, i: usize) -> (r: u8)
        requires
            i < self.bytes().len(),
        ensures
            r == self.bytes()[i as int],
    {
        match self {
            Element::Zle(_) => 0u8,
            Element::Iovec(b) => b[i],
        }
    }

    /// Identity of segments: runs are the same when their sizes agree;
    /// windows when they start at the same address with the same length
    /// (their contents then agree); a run is never the same as a window.
    pub fn same_as(&self, other: &Self) -> (r: bool)
        ensures
            match (*self, *other) {
                (Element::Zle(a), Element::Zle(b)) => r == (a == b),
                (Element::Iovec(a), Element::Iovec(b)) => r ==> a@ == b@,
                _ => !r,
            },
    {
        match (self, other) {
            (Element::Zle(a), Element::Zle(b)) => *a == *b,
            (Element::Iovec(a), Element::Iovec(b)) => same_window(a, b),
            _ => false,
        }
    }
}

impl<'a> PartialEq for Element<'a> {
    /// As `same_as`.
    fn eq(&self, other: &Self) -> (r: bool)
        ensures
            match (*self, *other) {
                (Element::Zle(a), Element::Zle(b)) => r == (a == b),
                (Element::Iovec(a), Element::Iovec(b)) => r ==> a@ == b@,
                _ => !r,
            },
    {
        self.same_as(other)
    }
}

/// Whether two windows are the same depends on where they lie in memory, not
/// only on their bytes, so `==` has no spec function to equal; its own
/// `ensures` says what it promises.
impl<'a> vstd::std_specs::cmp::PartialEqSpecImpl for Element<'a> {
    open spec fn obeys_eq_spec() -> bool {
        false
    }

    open spec fn eq_spec(&self, other: &Self) -> bool {
        self.bytes() == other.bytes() && (self is Zle <==> other is Zle)
    }
}

impl<'a> From<&'a [u8]> for Element<'a> {
    fn from(b: &'a [u8]) -> (r: Self) {
        Element::Iovec(b)
    }
}

impl<'a> vstd::std_specs::convert::FromSpecImpl<&'a [u8]> for Element<'a> {
    open spec fn obeys_from_spec() -> bool {
        true
    }

    open spec fn from_spec(b: &'a [u8]) -> Self {
        Element::Iovec(b)
    }
}

} // verus!
