//! Asking for a parameter: the frame that carries the request.

use vstd::prelude::*;
use crate::obd::frame::RawFrame;

verus! {

/// The address that every controller on the bus listens to.
pub const OBD_REQUEST_ID: u16 = 0x7DF;

/// How many bytes of a request carry meaning: the service and the
/// parameter.
pub const REQUEST_LENGTH: u8 = 0x02;

/// The service that reads current data.
pub const SERVICE_CURRENT_DATA: u8 = 0x01;

/// The eight data bytes of a request for `pid`: the length, the service,
/// the parameter and five bytes of padding.
pub open spec fn request_payload(pid: u8) -> Seq<u8> {
    seq![REQUEST_LENGTH, SERVICE_CURRENT_DATA, pid, 0u8, 0u8, 0u8, 0u8, 0u8]
}

/// The frame to put on the bus to ask for `pid`. Sending it is left to the
/// caller.
pub fn send_obd_request(pid: u8) -> (frame: RawFrame)
    ensures
        frame.id == OBD_REQUEST_ID,
        frame.data@ == request_payload(pid),
        frame.wf(),
{
    let mut data: Vec<u8> = Vec::new();
    data.push(REQUEST_LENGTH);
    data.push(SERVICE_CURRENT_DATA);
    data.push(pid);
    data.push(0);
    data.push(0);
    data.push(0);
    data.push(0);
    data.push(0);
    assert(data@ =~= request_payload(pid));
    RawFrame { id: OBD_REQUEST_ID, data }
}

} // verus!
