//! Zero-copy Ethernet/VLAN frame parsing with verified bounds handling.
//!
//! The crate takes a raw byte buffer holding a captured network frame and
//! produces a validated, typed view of its Ethernet header (destination and
//! source MAC, EtherType, optional single or double VLAN tag) together with
//! the payload that follows the header.  Every parsing function is total:
//! malformed input is answered with a structured error value, never a panic.

pub mod error;
pub mod ethernet;
pub mod packet_log;

pub use error::Error;
pub use packet_log::PacketLog;
