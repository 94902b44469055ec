//! A bus frame as the library sees it: an address and up to eight data
//! bytes.

use vstd::prelude::*;
use crate::constants::{MAX_FRAME_DATA, MAX_STANDARD_ID};

verus! {

/// A frame of the bus, as plain values.
#[derive(Debug)]
pub struct RawFrame {
    /// The address the frame was sent under.
    pub id: u16,
    /// The data bytes, in the order of the wire.
    pub data: Vec<u8>,
}

impl RawFrame {
    /// A frame that the bus can carry: a standard address and at most eight
    /// data bytes.
    pub open spec fn wf(self) -> bool {
        self.id <= MAX_STANDARD_ID && self.data@.len() <= MAX_FRAME_DATA
    }

    /// Makes a frame, or nothing when the address is not a standard one or
    /// there are more than eight data bytes.
    pub fn new(id: u16, data: Vec<u8>) -> (frame: Option<RawFrame>)
        ensures
            frame is Some <==> (id <= MAX_STANDARD_ID && data@.len() <= MAX_FRAME_DATA),
            frame matches Some(f) ==> f.id == id && f.data == data && f.wf(),
    {
        if id <= MAX_STANDARD_ID && data.len() <= MAX_FRAME_DATA {
            Some(RawFrame { id, data })
        } else {
            None
        }
    }
}

} // verus!
