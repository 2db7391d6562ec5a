//! The canonical wire shape: one byte sequence, or a sequence of them.
use vstd::prelude::*;

use crate::element::Element;

verus! {

/// What a payload looks like on the wire.
pub ghost enum Shape {
    /// One flat byte sequence.
    Single(Seq<u8>),
    /// A sequence of byte sequences.
    Sequence(Seq<Seq<u8>>),
}

/// The bytes of each owned buffer, in order.
pub open spec fn buffers_view(v: Seq<Vec<u8>>) -> Seq<Seq<u8>> {
    Seq::new(v.len(), |i: int| v[i]@)
}

/// The bytes of each element, in order.
pub open spec fn elements_view(v: Seq<Element>) -> Seq<Seq<u8>> {
    Seq::new(v.len(), |i: int| v[i].bytes())
}

/// The variants that can be written but never read back.
#[derive(Debug, Clone, Copy, PartialEq, Eq, Structural)]
pub enum Unsupported {
    /// A list of borrowed windows: reading one back would have to invent
    /// memory that someone else owns.
    SgList,
    /// A list of elements: its windows and zero runs are not recoverable.
    Element,
}

impl Unsupported {
    /// A sentence naming the refused operation.
    pub fn message(&self) -> (r: &'static str)
        ensures
            *self == Unsupported::SgList ==> r@ == "Cannot deserialize SgList"@,
            *self == Unsupported::Element ==> r@ == "Cannot deserialize Element"@,
    {
        proof {
            reveal_strlit("Cannot deserialize SgList");
            reveal_strlit("Cannot deserialize Element");
        }
        match self {
            Unsupported::SgList => "Cannot deserialize SgList",
            Unsupported::Element => "Cannot deserialize Element",
        }
    }
}

/// A payload as the codec hands it over, one variant per wire tag.
#[derive(Debug, PartialEq)]
pub enum Decoded {
    /// Tag 0: a list of borrowed windows, which is never read back.
    SgList,
    /// Tag 1: a sequence of byte sequences.
    SgVec(Vec<Vec<u8>>),
    /// Tag 2: one byte sequence.
    Direct(Vec<u8>),
    /// Tag 3: a list of elements, which is never read back.
    Element,
}

impl Decoded {
    /// This decoded value holds exactly the wire shape `s`.
    pub open spec fn carries(self, s: Shape) -> bool {
        match self {
            Decoded::SgVec(v) => s == Shape::Sequence(buffers_view(v@)),
            Decoded::Direct(b) => s == Shape::Single(b@),
            _ => false,
        }
    }
}

/// A payload ready for the codec, borrowing the bytes it writes.
///
/// Windows are written straight from the memory they view and zero runs byte
/// by byte, so nothing is copied or allocated beyond the list of segments.
#[derive(Debug)]
pub enum Encoded<'b> {
    /// Written under the tag of a sequence of byte sequences.
    SgVec(Vec<Element<'b>>),
    /// Written under the tag of one byte sequence.
    Direct(&'b [u8]),
}

impl<'b> Encoded<'b> {
    /// The wire shape this writes.
    pub open spec fn shape(self) -> Shape {
        match self {
            Encoded::SgVec(v) => Shape::Sequence(elements_view(v@)),
            Encoded::Direct(b) => Shape::Single(b@),
        }
    }

    /// The name of the enum on the wire.
    pub fn enum_name(&self) -> (r: &'static str)
        ensures
            r@ == "SgData"@,
    {
        proof {
            reveal_strlit("SgData");
        }
        "SgData"
    }

    /// The index of the wire tag.
    pub fn variant_index(&self) -> (r: u32)
        ensures
            r == (if *self is Direct { 2u32 } else { 1u32 }),
    {
        match self {
            Encoded::SgVec(_) => 1,
            Encoded::Direct(_) => 2,
        }
    }

    /// The name of the wire tag.
    pub fn variant_name(&self) -> (r: &'static str)
        ensures
            *self is Direct ==> r@ == "Direct"@,
            *self is SgVec ==> r@ == "SgVec"@,
    {
        proof {
            reveal_strlit("Direct");
            reveal_strlit("SgVec");
        }
        match self {
            Encoded::SgVec(_) => "SgVec",
            Encoded::Direct(_) => "Direct",
        }
    }

    /// What a faithful codec hands back after writing this: every segment
    /// as an owned buffer, zero runs filled in.
    pub fn to_decoded(&self) -> (r: Decoded)
        ensures
            r.carries(self.shape()),
    {
        match self {
            Encoded::Direct(b) => Decoded::Direct(materialize(&Element::Iovec(b))),
            Encoded::SgVec(v) => {
                let mut out: Vec<Vec<u8>> = Vec::new();
                let mut i: usize = 0;
                while i < v.len()
                    invariant
                        i <= v@.len(),
                        buffers_view(out@) == elements_view(v@).take(i as int),
                    decreases v@.len() - i,
                {
                    let buf = materialize(&v[i]);
                    let ghost before = out@;
                    assert(buffers_view(before).len() == i);
                    out.push(buf);
                    assert(out@.len() == i + 1);
                    assert forall|j: int| 0 <= j < i implies out@[j]@ == v@[j].bytes() by {
                        assert(out@[j] == before[j]);
                        assert(buffers_view(before)[j] == elements_view(v@).take(i as int)[j]);
                    }
                    i = i + 1;
                    assert(buffers_view(out@) =~= elements_view(v@).take(i as int));
                }
                assert(elements_view(v@).take(v@.len() as int) =~= elements_view(v@));
                Decoded::SgVec(out)
            },
        }
    }
}

/// The bytes of one element as an owned buffer.
fn materialize(e: &Element) -> (r: Vec<u8>)
    ensures
        r@ == e.bytes(),
{
    let n = e.len();
    let mut out: Vec<u8> = Vec::with_capacity(n);
    let mut i: usize = 0;
    while i < n
        invariant
            n == e.bytes().len(),
            i <= n,
            out@ == e.bytes().take(i as int),
        decreases n - i,
    {
        out.push(e.byte_at(i));
        i = i + 1;
        assert(out@ =~= e.bytes().take(i as int));
    }
    assert(e.bytes().take(n as int) =~= e.bytes());
    out
}

} // verus!
