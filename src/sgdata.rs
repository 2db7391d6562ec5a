//! The payload itself: one value over four physical shapes.
use vstd::prelude::*;

use crate::element::Element;
use crate::sglist::SgList;
use crate::wire::{buffers_view, elements_view, Decoded, Encoded, Shape, Unsupported};

verus! {

/// A payload in whichever shape its owner already has.
#[derive(Debug, PartialEq)]
pub enum SgData<'a> {
    /// Windows onto memory that the caller owns.
    SgList(SgList<'a>),
    /// Owned buffers, in order.
    SgVec(Vec<Vec<u8>>),
    /// One owned buffer.
    Direct(Vec<u8>),
    /// Windows and zero runs, in order.
    Element(Vec<Element<'a>>),
}

impl<'a> SgData<'a> {
    /// The wire shape of this payload. Windows, owned buffers and elements
    /// all become a sequence of byte sequences; one buffer stays flat.
    pub open spec fn shape(self) -> Shape {
        match self {
            SgData::SgList(l) => Shape::Sequence(l@),
            SgData::SgVec(v) => Shape::Sequence(buffers_view(v@)),
            SgData::Direct(b) => Shape::Single(b@),
            SgData::Element(v) => Shape::Sequence(elements_view(v@)),
        }
    }

    /// Prepares the payload for the codec. Owned buffers and windows are
    /// borrowed, zero runs stay runs, and the order is kept.
    pub fn encode<'b>(&'b self) -> (r: Encoded<'b>)
        ensures
            r.shape() == self.shape(),
            (*self is Direct) <==> (r is Direct),
            match (*self, r) {
                (SgData::Element(v), Encoded::SgVec(w)) => w@ == v@,
                _ => true,
            },
    {
        match self {
            SgData::Direct(b) => Encoded::Direct(b.as_slice()),
            SgData::SgVec(v) => {
                let mut out: Vec<Element<'b>> = Vec::new();
                let mut i: usize = 0;
                while i < v.len()
                    invariant
                        i <= v@.len(),
                        out@.len() == i,
                        forall|j: int| 0 <= j < i ==> (#[trigger] out@[j]).bytes() == v@[j]@,
                    decreases v@.len() - i,
                {
                    out.push(Element::Iovec(v[i].as_slice()));
                    i = i + 1;
                }
                assert(elements_view(out@) =~= buffers_view(v@));
                Encoded::SgVec(out)
            },
            SgData::SgList(l) => {
                let n = l.count();
                let mut out: Vec<Element<'b>> = Vec::new();
                let mut i: usize = 0;
                while i < n
                    invariant
                        n == l@.len(),
                        i <= n,
                        out@.len() == i,
                        forall|j: int| 0 <= j < i ==> (#[trigger] out@[j]).bytes() == l@[j],
                    decreases n - i,
                {
                    out.push(Element::Iovec(l.window(i)));
                    i = i + 1;
                }
                assert(elements_view(out@) =~= l@);
                Encoded::SgVec(out)
            },
            SgData::Element(v) => {
                let mut out: Vec<Element<'b>> = Vec::new();
                let mut i: usize = 0;
                while i < v.len()
                    invariant
                        i <= v@.len(),
                        out@ == v@.take(i as int),
                    decreases v@.len() - i,
                {
                    out.push(v[i]);
                    i = i + 1;
                    assert(out@ =~= v@.take(i as int));
                }
                assert(v@.take(v@.len() as int) =~= v@);
                Encoded::SgVec(out)
            },
        }
    }

    /// What reading back a decoded value gives. A sequence of byte
    /// sequences always comes back as owned buffers, whatever wrote it; one
    /// byte sequence comes back as one buffer. Windows and elements are
    /// refused.
    pub open spec fn read_back(d: Decoded) -> Result<SgData<'a>, Unsupported> {
        match d {
            Decoded::SgList => Err(Unsupported::SgList),
            Decoded::SgVec(v) => Ok(SgData::SgVec(v)),
            Decoded::Direct(b) => Ok(SgData::Direct(b)),
            Decoded::Element => Err(Unsupported::Element),
        }
    }

    /// Reads a payload back from what the codec decoded (see `read_back`).
    pub fn deserialize(d: Decoded) -> (r: Result<SgData<'a>, Unsupported>)
        ensures
            r == Self::read_back(d),
    {
        match d {
            Decoded::SgList => Err(Unsupported::SgList),
            Decoded::SgVec(v) => Ok(SgData::SgVec(v)),
            Decoded::Direct(b) => Ok(SgData::Direct(b)),
            Decoded::Element => Err(Unsupported::Element),
        }
    }

    /// Hands over the payload as owned buffers, in order: owned buffers as
    /// they are, one buffer as a list of one. Windows and elements are
    /// refused, since that would copy borrowed memory or fill in zero runs.
    pub fn into_buffers(self) -> (r: Result<Vec<Vec<u8>>, Unsupported>)
        ensures
            match self {
                SgData::SgList(_) => r == Err::<Vec<Vec<u8>>, Unsupported>(Unsupported::SgList),
                SgData::SgVec(v) => r == Ok::<Vec<Vec<u8>>, Unsupported>(v),
                SgData::Direct(b) => r is Ok && r->Ok_0@ == seq![b],
                SgData::Element(_) => r == Err::<Vec<Vec<u8>>, Unsupported>(Unsupported::Element),
            },
    {
        match self {
            SgData::SgList(_) => Err(Unsupported::SgList),
            SgData::SgVec(v) => Ok(v),
            SgData::Direct(b) => Ok(vec![b]),
            SgData::Element(_) => Err(Unsupported::Element),
        }
    }
}

impl<'a> From<SgList<'a>> for SgData<'a> {
    fn from(l: SgList<'a>) -> (r: Self) {
        SgData::SgList(l)
    }
}

impl<'a> vstd::std_specs::convert::FromSpecImpl<SgList<'a>> for SgData<'a> {
    open spec fn obeys_from_spec() -> bool {
        true
    }

    open spec fn from_spec(l: SgList<'a>) -> Self {
        SgData::SgList(l)
    }
}

impl<'a> From<Vec<Vec<u8>>> for SgData<'a> {
    fn from(v: Vec<Vec<u8>>) -> (r: Self) {
        SgData::SgVec(v)
    }
}

impl<'a> vstd::std_specs::convert::FromSpecImpl<Vec<Vec<u8>>> for SgData<'a> {
    open spec fn obeys_from_spec() -> bool {
        true
    }

    open spec fn from_spec(v: Vec<Vec<u8>>) -> Self {
        SgData::SgVec(v)
    }
}

impl<'a> From<Vec<u8>> for SgData<'a> {
    fn from(b: Vec<u8>) -> (r: Self) {
        SgData::Direct(b)
    }
}

impl<'a> vstd::std_specs::convert::FromSpecImpl<Vec<u8>> for SgData<'a> {
    open spec fn obeys_from_spec() -> bool {
        true
    }

    open spec fn from_spec(b: Vec<u8>) -> Self {
        SgData::Direct(b)
    }
}

impl<'a> From<Vec<Element<'a>>> for SgData<'a> {
    fn from(v: Vec<Element<'a>>) -> (r: Self) {
        SgData::Element(v)
    }
}

impl<'a> vstd::std_specs::convert::FromSpecImpl<Vec<Element<'a>>> for SgData<'a> {
    open spec fn obeys_from_spec() -> bool {
        true
    }

    open spec fn from_spec(v: Vec<Element<'a>>) -> Self {
        SgData::Element(v)
    }
}

} // verus!
