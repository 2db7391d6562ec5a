//! What holds of writing a payload and reading it back.
//!
//! A codec that is faithful hands back exactly the shape that `encode`
//! produced; `Decoded::carries` says so. Each law starts from such a decoded
//! value.
use vstd::prelude::*;

use crate::element::{zeros, Element};
use crate::sgdata::SgData;
use crate::sglist::SgList;
use crate::wire::{buffers_view, elements_view, Decoded, Shape};

verus! {

/// One owned buffer, written and read back, is the same buffer again.
pub proof fn lemma_direct_round_trip<'a>(b: Vec<u8>, d: Decoded)
    requires
        d.carries(SgData::<'a>::Direct(b).shape()),
    ensures
        SgData::<'a>::read_back(d) matches Ok(SgData::Direct(c)) && c@ == b@,
{
}

/// Owned buffers, written and read back, are the same buffers in the same
/// order.
pub proof fn lemma_sgvec_round_trip<'a>(v: Vec<Vec<u8>>, d: Decoded)
    requires
        d.carries(SgData::<'a>::SgVec(v).shape()),
    ensures
        SgData::<'a>::read_back(d) matches Ok(SgData::SgVec(w)) && buffers_view(w@)
            == buffers_view(v@),
{
}

/// Windows onto the same bytes as owned buffers `v`, written and read back,
/// become those owned buffers: never windows again.
pub proof fn lemma_sglist_reads_back_owned<'a>(l: SgList<'a>, v: Vec<Vec<u8>>, d: Decoded)
    requires
        l@ == buffers_view(v@),
        d.carries(SgData::<'a>::SgList(l).shape()),
    ensures
        SgData::<'a>::read_back(d) matches Ok(SgData::SgVec(w)) && buffers_view(w@)
            == buffers_view(v@),
{
}

/// A single run of `n` zeros, written and read back, becomes one owned
/// buffer of `n` zero bytes.
pub proof fn lemma_zero_run_reads_back<'a>(es: Vec<Element<'a>>, n: usize, d: Decoded)
    requires
        es@ == seq![Element::Zle(n)],
        d.carries(SgData::<'a>::Element(es).shape()),
    ensures
        SgData::<'a>::read_back(d) matches Ok(SgData::SgVec(w)) && w@.len() == 1 && w@[0]@
            == zeros(n as nat),
{
    let w = d->SgVec_0;
    assert(elements_view(es@).len() == 1);
    assert(elements_view(es@)[0] == zeros(n as nat));
    assert(buffers_view(w@) == elements_view(es@));
    assert(buffers_view(w@)[0] == w@[0]@);
}

/// An empty list of windows writes an empty sequence of byte sequences.
pub proof fn lemma_empty_sglist_shape<'a>(l: SgList<'a>)
    requires
        l@.len() == 0,
    ensures
        SgData::<'a>::SgList(l).shape() == Shape::Sequence(Seq::<Seq<u8>>::empty()),
{
    assert(l@ =~= Seq::<Seq<u8>>::empty());
}

} // verus!
