//! What the unit keeps of a protocol session: the server's session state
//! and the arithmetic of serial numbers.

use rpki_rtr::state::{Serial, State};
use vstd::prelude::*;

verus! {

/// The session state of rpki_rtr: a token that the unit stores and hands
/// back, and never looks into.
#[verifier::external_type_specification]
#[verifier::external_body]
pub struct ExState(State);

/// The serial that follows `serial` after `step` steps: serial numbers
/// count modulo 2^32.
pub open spec fn serial_after(serial: u32, step: u32) -> u32 {
    ((serial + step) % 0x1_0000_0000) as u32
}

/// `Serial::add` of rpki_rtr, on the numbers inside the serials. The
/// method adds modulo 2^32 and panics on a step above 2^31 - 1, which
/// the precondition leaves out.
#[verifier::external_body]
pub(crate) fn serial_add(serial: u32, step: u32) -> (r: u32)
    requires
        step <= 0x7FFF_FFFF,
    ensures
        r == serial_after(serial, step),
{
    u32::from(Serial::from(serial).add(step))
}

} // verus!
