use vstd::prelude::*;

use crate::error::Error;

verus! {

/// Length of the header that the streaming client puts before each cached segment.
pub const SPECIAL_OFFSET: usize = 9;

/// The media bytes of a cached segment: everything after the client header.
pub open spec fn fragment_of(segment: Seq<u8>) -> Seq<u8> {
    segment.subrange(SPECIAL_OFFSET as int, segment.len() as int)
}

/// Strips the client header from the raw bytes of one segment.
pub fn decode_segment(segment: &Vec<u8>) -> (r: Result<Vec<u8>, Error>)
    ensures
        segment@.len() < SPECIAL_OFFSET <==> r == Err::<Vec<u8>, Error>(Error::SegmentTooShort),
        r is Ok <==> segment@.len() >= SPECIAL_OFFSET,
        r matches Ok(f) ==> f@ == fragment_of(segment@),
{
    if segment.len() < SPECIAL_OFFSET {
        return Err(Error::SegmentTooShort);
    }
    let mut out: Vec<u8> = Vec::with_capacity(segment.len() - SPECIAL_OFFSET);
    let mut i: usize = SPECIAL_OFFSET;
    while i < segment.len()
        invariant
            SPECIAL_OFFSET <= i <= segment@.len(),
            out@ == segment@.subrange(SPECIAL_OFFSET as int, i as int),
        decreases segment@.len() - i,
    {
        out.push(segment[i]);
        i = i + 1;
        assert(out@ =~= segment@.subrange(SPECIAL_OFFSET as int, i as int));
    }
    Ok(out)
}

} // verus!
