//! Bus addresses of the diagnostic exchange.

use vstd::prelude::*;

verus! {

/// The address under which the engine controller answers.
pub const OBD_RESPONSE_ID: u16 = 0x7E8;

/// The largest address of the standard, 11-bit format.
pub const MAX_STANDARD_ID: u16 = 0x7FF;

/// The most data bytes that one frame carries.
pub const MAX_FRAME_DATA: usize = 8;

} // verus!
