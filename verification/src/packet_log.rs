//! The record a hosting collaborator exports per parsed frame: the
//! destination and source MAC pair, plain data with no behavior.

use vstd::prelude::*;

verus! {

/// A parsed MAC pair, ready to be handed to an external log or map.
#[derive(Clone, Copy, Debug)]
pub struct PacketLog {
    pub dst: [u8; 6],
    pub src: [u8; 6],
}

} // verus!
