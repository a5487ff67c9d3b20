//! The session's loop decisions. A session couples the client to one
//! socket through two queues and two loop routines; the routines' I/O
//! stays outside, and each loop iteration's decision is here: what frame
//! a dequeued command puts on the wire and whether the sender routine
//! shuts the socket down afterwards. The receive side's decision is the
//! decoder itself (`Lcommand::from`).

use vstd::prelude::*;
use crate::lcommand::Lcmd;
use crate::lcommand::Lcommand;
use crate::lcommand::encode_spec;
use crate::lcommand::wire_kind;

verus! {

/// One sender-routine step's outcome: the frame to write, and whether
/// the routine closes the socket and ends after writing it.
pub struct Outgoing {
    pub frame: String,
    pub end: bool,
}

/// Decides one step of the sender routine for a dequeued command: every
/// wire kind is encoded (a quit as its disconnect frame), and exactly
/// the disconnect and quit commands end the routine after the write —
/// the only sanctioned path to closing the connection. A rename or the
/// help verb never reaches the wire: nothing is emitted.
pub fn sender_step(msg: Lcommand) -> (r: Option<Outgoing>)
    ensures
        wire_kind(msg.cmd_type) ==> (r matches Some(o) && o.frame@ == encode_spec(
            msg.cmd_type,
            msg.user@,
            msg.content@,
        ) && o.end == (msg.cmd_type is Dc || msg.cmd_type is Quit)),
        !wire_kind(msg.cmd_type) ==> r is None,
{
    match msg.cmd_type {
        Lcmd::Nick | Lcmd::Help => None,
        _ => {
            let end = msg.cmd_type == Lcmd::Dc || msg.cmd_type == Lcmd::Quit;
            let frame = msg.encode();
            Some(Outgoing { frame, end })
        },
    }
}

} // verus!
