use rexsgdata::{Decoded, Element, SgData, SgList, Unsupported};

// Writes a payload and reads back what a faithful codec would decode.
fn round_trip<'a>(data: &SgData) -> SgData<'a> {
    SgData::deserialize(data.encode().to_decoded()).unwrap()
}

// The wire tag and the decoded contents that a payload writes.
fn wire(data: &SgData) -> (&'static str, &'static str, u32, Decoded) {
    let enc = data.encode();
    (enc.enum_name(), enc.variant_name(), enc.variant_index(), enc.to_decoded())
}

fn windows(sgvec: &[Vec<u8>]) -> Vec<&[u8]> {
    sgvec.iter().map(|v| v.as_slice()).collect()
}

#[test]
fn sglist_serde() {
    let owned = vec![vec![0x45_u8; 4096]; 5];
    let iovecs = windows(&owned);
    let data = SgData::from(SgList::new(&iovecs));
    let data = round_trip(&data);

    assert_eq!(data, SgData::from(vec![vec![0x45_u8; 4096]; 5]));
}

#[test]
fn element_serde() {
    let owned = vec![vec![0x46_u8; 4096]; 7];
    let elements: Vec<Element> = owned.iter().map(|v| Element::from(v.as_slice())).collect();
    let data = SgData::from(elements);
    let data = round_trip(&data);

    assert_eq!(data, SgData::from(vec![vec![0x46_u8; 4096]; 7]));
}

#[test]
fn direct() {
    let data: SgData = vec![12_u8, 56, 34, 255, 0].into();

    assert_eq!(
        wire(&data),
        ("SgData", "Direct", 2, Decoded::Direct(vec![12, 56, 34, 255, 0]))
    );
}

#[test]
fn sgvec() {
    let data: SgData = vec![vec![12_u8, 56, 76], vec![128, 255]].into();

    assert_eq!(
        wire(&data),
        ("SgData", "SgVec", 1, Decoded::SgVec(vec![vec![12, 56, 76], vec![128, 255]]))
    );
}

#[test]
fn sglist() {
    let owned = vec![vec![12_u8, 56, 76], vec![128, 255]];
    let iovecs = windows(&owned);
    let data: SgData = SgList::new(&iovecs).into();

    assert_eq!(
        wire(&data),
        ("SgData", "SgVec", 1, Decoded::SgVec(vec![vec![12, 56, 76], vec![128, 255]]))
    );
}

#[test]
fn data_element_zero() {
    let data: SgData = vec![Element::zero(4), Element::zero(5)].into();

    assert_eq!(
        wire(&data),
        ("SgData", "SgVec", 1, Decoded::SgVec(vec![vec![0, 0, 0, 0], vec![0, 0, 0, 0, 0]]))
    );
}

#[test]
fn data_element_iovec() {
    let owned = vec![vec![36_u8, 123, 234], vec![87, 187, 211, 45]];
    let data: SgData = owned
        .iter()
        .map(|v| Element::from(v.as_slice()))
        .collect::<Vec<_>>()
        .into();

    assert_eq!(
        wire(&data),
        (
            "SgData",
            "SgVec",
            1,
            Decoded::SgVec(vec![vec![36, 123, 234], vec![87, 187, 211, 45]])
        )
    );
}

#[test]
fn element_mixed() {
    let owned = vec![vec![36_u8, 123, 234]];
    let data: SgData = owned
        .iter()
        .map(|v| Element::from(v.as_slice()))
        .chain(Some(Element::zero(5)))
        .collect::<Vec<_>>()
        .into();

    assert_eq!(
        wire(&data),
        ("SgData", "SgVec", 1, Decoded::SgVec(vec![vec![36, 123, 234], vec![0, 0, 0, 0, 0]]))
    );
}

#[test]
fn direct_round_trip() {
    let data = SgData::from(vec![1_u8, 2, 3]);
    assert_eq!(round_trip(&data), SgData::Direct(vec![1, 2, 3]));
}

#[test]
fn sgvec_round_trip_keeps_order_and_empty_buffers() {
    let data = SgData::from(vec![vec![3_u8], vec![], vec![1_u8, 2]]);
    assert_eq!(round_trip(&data), SgData::SgVec(vec![vec![3], vec![], vec![1, 2]]));
}

#[test]
fn zero_run_round_trip() {
    let data = SgData::from(vec![Element::zero(1000)]);
    assert_eq!(round_trip(&data), SgData::SgVec(vec![vec![0_u8; 1000]]));
}

#[test]
fn zero_run_stays_a_run_when_encoded() {
    let data = SgData::from(vec![Element::zero(1 << 40)]);
    match data.encode() {
        rexsgdata::Encoded::SgVec(v) => {
            assert_eq!(v.len(), 1);
            assert_eq!(v[0], Element::zero(1 << 40));
            assert_eq!(v[0].len(), 1 << 40);
        }
        rexsgdata::Encoded::Direct(_) => panic!("a run must be written as a sequence"),
    }
}

#[test]
fn empty_sglist_writes_empty_sequence() {
    let iovecs: Vec<&[u8]> = Vec::new();
    let data = SgData::from(SgList::new(&iovecs));
    assert_eq!(wire(&data), ("SgData", "SgVec", 1, Decoded::SgVec(vec![])));
    assert_eq!(round_trip(&data), SgData::SgVec(vec![]));
}

#[test]
fn empty_sgvec_writes_empty_sequence() {
    let data = SgData::from(Vec::<Vec<u8>>::new());
    assert_eq!(wire(&data), ("SgData", "SgVec", 1, Decoded::SgVec(vec![])));
}

#[test]
fn deserialize_refuses_windows_and_elements() {
    let r: Result<SgData, Unsupported> = SgData::deserialize(Decoded::SgList);
    assert_eq!(r, Err(Unsupported::SgList));
    let r: Result<SgData, Unsupported> = SgData::deserialize(Decoded::Element);
    assert_eq!(r, Err(Unsupported::Element));
    assert_eq!(Unsupported::SgList.message(), "Cannot deserialize SgList");
    assert_eq!(Unsupported::Element.message(), "Cannot deserialize Element");
}

#[test]
fn into_buffers_of_owned_payloads() {
    let data = SgData::from(vec![vec![1_u8], vec![2_u8, 3]]);
    assert_eq!(data.into_buffers(), Ok(vec![vec![1_u8], vec![2, 3]]));
    let data = SgData::from(vec![4_u8, 5, 6]);
    assert_eq!(data.into_buffers(), Ok(vec![vec![4_u8, 5, 6]]));
}

#[test]
fn into_buffers_refuses_windows_and_elements() {
    let owned = vec![vec![1_u8, 2]];
    let iovecs = windows(&owned);
    let data = SgData::from(SgList::new(&iovecs));
    assert_eq!(data.into_buffers(), Err(Unsupported::SgList));
    let data = SgData::from(vec![Element::zero(3)]);
    assert_eq!(data.into_buffers(), Err(Unsupported::Element));
}

#[test]
fn sglist_accessors() {
    let owned = vec![vec![1_u8, 2], vec![3_u8]];
    let iovecs = windows(&owned);
    let l = SgList::new(&iovecs);
    assert_eq!(l.count(), 2);
    assert_eq!(l.window(1), &[3_u8][..]);
    assert_eq!(l, SgList::new(&iovecs));
    let other = windows(&owned);
    assert_ne!(l, SgList::new(&other));
}

fn assert_send<T: Send>() {}
fn assert_sync<T: Sync>() {}

#[test]
fn sgdata_is_send_and_sync() {
    assert_send::<SgData>();
    assert_sync::<SgData>();
    assert_send::<SgList>();
    assert_sync::<Element>();
}
