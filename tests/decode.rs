use bili_merge::error::Error;
use bili_merge::segment::{decode_segment, SPECIAL_OFFSET};

#[test]
fn decode_strips_header_bytes() {
    let segment: Vec<u8> = (0..100u32).map(|i| (i * 7 % 251) as u8).collect();
    let fragment = decode_segment(&segment).unwrap();
    assert_eq!(fragment.len(), 91);
    assert_eq!(&fragment[..], &segment[9..]);
}

#[test]
fn decode_header_only_gives_empty_fragment() {
    let segment = vec![1u8; SPECIAL_OFFSET];
    assert_eq!(decode_segment(&segment).unwrap(), Vec::<u8>::new());
}

#[test]
fn decode_short_segment_fails() {
    assert_eq!(decode_segment(&vec![0u8; 8]).unwrap_err(), Error::SegmentTooShort);
    assert_eq!(decode_segment(&Vec::new()).unwrap_err(), Error::SegmentTooShort);
}

#[test]
fn decode_ten_bytes_keeps_last() {
    let segment: Vec<u8> = (0..10u8).collect();
    assert_eq!(decode_segment(&segment).unwrap(), vec![9u8]);
}
