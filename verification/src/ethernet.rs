//! The Ethernet frame view: construction with dual bounds validation, VLAN
//! tag detection, and header field access.
//!
//! A constructed [`EtherFrame`] borrows the header prefix of the caller's
//! buffer; the payload is handed back as the remainder of the same buffer.
//! All byte ranges come from the offset table below, fixed per VLAN state.

mod error;
mod header_values;

pub use error::{
    CutBothVlanTagsError, CutFirstVlanTagError, EthernetBpfCreationError,
    EthernetBpfWithVlanCreationError, EthernetError, GetFirstVlanParameterError, GetHeaderError,
    GetSecondVlanParameterError, MatchEtherWithVlanError,
};
pub use header_values::{
    code_of, lemma_code_of_lookup, lemma_lookup_of_code, lemma_lookup_succeeds_iff_recognized,
    spec_lookup, EtherType, EtherTypeParsingError,
};

use vstd::prelude::*;

verus! {

// All ranges are [start..end): start is included, end is not.
pub const DESTINATION_MAC_START: usize = 0;

pub const DESTINATION_MAC_END: usize = 6;

pub const SOURCE_MAC_START: usize = 6;

pub const SOURCE_MAC_END: usize = 12;

pub const ETHER_TYPE_START: usize = 12;

pub const ETHER_TYPE_END: usize = 14;

pub const SINGLE_TAGGED_ETHER_TYPE_START: usize = 16;

pub const SINGLE_TAGGED_ETHER_TYPE_END: usize = 18;

pub const DOUBLE_TAGGED_ETHER_TYPE_START: usize = 20;

pub const DOUBLE_TAGGED_ETHER_TYPE_END: usize = 22;

/// Payload starts at 14 when there is no VLAN tag; each tag adds 4 bytes,
/// so a single-tagged frame starts its payload at 18 and a double-tagged
/// one at 22.
pub const PAYLOAD_START_NO_VLAN: usize = 14;

pub const FIRST_VLAN_TAG_ETHER_TYPE_START: usize = 12;

pub const FIRST_VLAN_TAG_ETHER_TYPE_END: usize = 14;

pub const FIRST_VLAN_TAG_PARAM_START: usize = 14;

pub const FIRST_VLAN_TAG_PARAM_END: usize = 16;

pub const SECOND_VLAN_TAG_ETHER_TYPE_START: usize = 16;

pub const SECOND_VLAN_TAG_ETHER_TYPE_END: usize = 18;

pub const SECOND_VLAN_TAG_PARAM_START: usize = 18;

pub const SECOND_VLAN_TAG_PARAM_END: usize = 20;

/// How many VLAN tags a frame carries; an untagged frame has no `Vlan`
/// value at all (`Option<Vlan>` is `None`).
#[derive(Copy, Clone, PartialEq, Eq, Debug)]
pub enum Vlan {
    SingleTagged,
    DoubleTagged,
}

/// A validated, immutable view of an Ethernet header: the detected VLAN
/// state, the EtherType classified at construction, and a borrow of the
/// header bytes (14, 18 or 22 of them, matching the VLAN state).
#[derive(PartialEq, Eq, Debug)]
pub struct EtherFrame<'a> {
    vlan: Option<Vlan>,
    ether_type: EtherType,
    headers: &'a [u8],
}

/// The mathematical content of an [`EtherFrame`]: its VLAN state, its
/// classified EtherType, and the header bytes as a sequence.
pub struct FrameView {
    pub vlan: Option<Vlan>,
    pub ether_type: EtherType,
    pub headers: Seq<u8>,
}

impl<'a> View for EtherFrame<'a> {
    type V = FrameView;

    closed spec fn view(&self) -> FrameView {
        FrameView { vlan: self.vlan, ether_type: self.ether_type, headers: self.headers@ }
    }
}

/// Number of VLAN tags under a given state: 0, 1 or 2.
pub open spec fn spec_tag_count(v: Option<Vlan>) -> int {
    match v {
        None => 0,
        Some(Vlan::SingleTagged) => 1,
        Some(Vlan::DoubleTagged) => 2,
    }
}

/// Header length under a given VLAN state: 14, 18 or 22 bytes.
pub open spec fn spec_header_len(v: Option<Vlan>) -> int {
    PAYLOAD_START_NO_VLAN + 4 * spec_tag_count(v)
}

/// Where the EtherType field starts in the header, per VLAN state.
pub open spec fn spec_ether_type_start(v: Option<Vlan>) -> int {
    match v {
        None => ETHER_TYPE_START as int,
        Some(Vlan::SingleTagged) => SINGLE_TAGGED_ETHER_TYPE_START as int,
        Some(Vlan::DoubleTagged) => DOUBLE_TAGGED_ETHER_TYPE_START as int,
    }
}

/// A 16-bit value read from two bytes in big-endian (network) order.
pub open spec fn spec_be16(hi: u8, lo: u8) -> u16 {
    (hi as int * 256 + lo as int) as u16
}

/// The frame starts with one VLAN tag: bytes 12..14 hold the single-tag
/// marker 0x8100.
pub open spec fn spec_single_tagged(f: Seq<u8>) -> bool {
    f[12] == 0x81 && f[13] == 0x00
}

/// The frame starts with two stacked VLAN tags: the outer marker 0x88A8 at
/// bytes 12..14 and the inner marker 0x8100 at bytes 16..18.
pub open spec fn spec_double_tagged(f: Seq<u8>) -> bool {
    f[12] == 0x88 && f[13] == 0xA8 && f[16] == 0x81 && f[17] == 0x00
}

/// The VLAN state the matcher detects on a frame of at least 22 bytes.
pub open spec fn spec_vlan_state(f: Seq<u8>) -> Option<Vlan> {
    if spec_single_tagged(f) {
        Some(Vlan::SingleTagged)
    } else if spec_double_tagged(f) {
        Some(Vlan::DoubleTagged)
    } else {
        None
    }
}

/// Total length of the VLAN tags the matcher detects: 0, 4 or 8 bytes.
pub open spec fn spec_vlan_tag_len(f: Seq<u8>) -> int {
    4 * spec_tag_count(spec_vlan_state(f))
}

/// The raw 16-bit EtherType the matcher classifies: past both tags on a
/// double-tagged frame, past the single tag on a tagged one, and at the
/// base offset otherwise.
pub open spec fn spec_inner_code(f: Seq<u8>) -> u16 {
    if spec_single_tagged(f) {
        spec_be16(f[16], f[17])
    } else if spec_double_tagged(f) {
        spec_be16(f[20], f[21])
    } else {
        spec_be16(f[12], f[13])
    }
}

/// The raw 16-bit EtherType at the base offset 12..14, the only place the
/// untagged constructor reads it.
pub open spec fn spec_base_code(f: Seq<u8>) -> u16 {
    spec_be16(f[12], f[13])
}

/// Destination MAC of a frame view: the first six header bytes, whatever
/// the VLAN state.
pub open spec fn spec_destination(fv: FrameView) -> Seq<u8> {
    fv.headers.subrange(DESTINATION_MAC_START as int, DESTINATION_MAC_END as int)
}

/// Source MAC of a frame view: header bytes 6..12, whatever the VLAN state.
pub open spec fn spec_source(fv: FrameView) -> Seq<u8> {
    fv.headers.subrange(SOURCE_MAC_START as int, SOURCE_MAC_END as int)
}

/// Read a big-endian 16-bit value from two adjacent bytes of a slice.
fn u16_from_be_pair(hi: u8, lo: u8) -> (r: u16)
    ensures
        r == spec_be16(hi, lo),
{
    (hi as u16) * 256 + (lo as u16)
}

impl<'a> EtherFrame<'a> {
    /// The frame's internal invariant: the borrowed header region is exactly
    /// as long as its VLAN state demands.
    pub open spec fn wf(self) -> bool {
        self@.headers.len() == spec_header_len(self@.vlan)
    }

    /// Construct a frame view assuming no VLAN tags, validating the buffer
    /// against both bound sources first: the externally asserted end address
    /// (`end` against `buf_start`) and the buffer's own length.  On success
    /// the header covers exactly the first 14 bytes and the payload is the
    /// rest of the buffer.
    pub fn new_bpf(buf: &'a [u8], buf_start: usize, end: usize) -> (r: Result<
        (EtherFrame<'a>, &'a [u8]),
        EthernetBpfCreationError,
    >)
        ensures
            end < buf_start + PAYLOAD_START_NO_VLAN ==> r == Err::<
                (EtherFrame<'a>, &'a [u8]),
                EthernetBpfCreationError,
            >(EthernetBpfCreationError::BpfOutOfBounds),
            end >= buf_start + PAYLOAD_START_NO_VLAN && buf@.len() < PAYLOAD_START_NO_VLAN ==> r
                == Err::<(EtherFrame<'a>, &'a [u8]), EthernetBpfCreationError>(
                EthernetBpfCreationError::FrameTooShort { size: buf@.len() as usize },
            ),
            end >= buf_start + PAYLOAD_START_NO_VLAN && buf@.len() >= PAYLOAD_START_NO_VLAN
                && spec_lookup(spec_base_code(buf@)) is None ==> r == Err::<
                (EtherFrame<'a>, &'a [u8]),
                EthernetBpfCreationError,
            >(
                EthernetBpfCreationError::NoRecognizedEtherType {
                    ether_type: spec_base_code(buf@),
                },
            ),
            end >= buf_start + PAYLOAD_START_NO_VLAN && buf@.len() >= PAYLOAD_START_NO_VLAN
                && spec_lookup(spec_base_code(buf@)) is Some ==> (r matches Ok(p) && p.0.wf()
                && p.0@.vlan is None && p.0@.ether_type == spec_lookup(spec_base_code(buf@)).unwrap()
                && p.0@.headers == buf@.subrange(0, PAYLOAD_START_NO_VLAN as int) && p.1@
                == buf@.subrange(PAYLOAD_START_NO_VLAN as int, buf@.len() as int)),
            buf@.len() < PAYLOAD_START_NO_VLAN ==> r is Err,
    {
        // We read at most the first 14 bytes of the frame:
        // 6 bytes dst MAC, 6 bytes src MAC, 2 bytes ether type.
        if end < PAYLOAD_START_NO_VLAN || end - PAYLOAD_START_NO_VLAN < buf_start {
            return Err(EthernetBpfCreationError::BpfOutOfBounds);
        }
        if buf.len() < PAYLOAD_START_NO_VLAN {
            return Err(EthernetBpfCreationError::FrameTooShort { size: buf.len() });
        }
        let value = u16_from_be_pair(buf[ETHER_TYPE_START], buf[ETHER_TYPE_START + 1]);
        let ether_type = match EtherType::lookup(value) {
            Ok(t) => t,
            Err(e) => {
                return Err(EthernetBpfCreationError::from(e));
            },
        };
        let (headers, payload) = buf.split_at(PAYLOAD_START_NO_VLAN);
        Ok((EtherFrame { vlan: None, ether_type, headers }, payload))
    }

    /// Construct a frame view allowing up to two stacked VLAN tags.  Both
    /// bound checks run against the maximum possible header of 22 bytes
    /// before any byte is read; the VLAN matcher then decides the actual
    /// header length (14, 18 or 22) and the buffer is split there.
    pub fn new_bpf_with_vlan(buf: &'a [u8], buf_start: usize, end: usize) -> (r: Result<
        (EtherFrame<'a>, &'a [u8]),
        EthernetBpfWithVlanCreationError,
    >)
        ensures
            end < buf_start + DOUBLE_TAGGED_ETHER_TYPE_END ==> r == Err::<
                (EtherFrame<'a>, &'a [u8]),
                EthernetBpfWithVlanCreationError,
            >(EthernetBpfWithVlanCreationError::BpfOutOfBounds),
            end >= buf_start + DOUBLE_TAGGED_ETHER_TYPE_END && buf@.len()
                < DOUBLE_TAGGED_ETHER_TYPE_END ==> r == Err::<
                (EtherFrame<'a>, &'a [u8]),
                EthernetBpfWithVlanCreationError,
            >(EthernetBpfWithVlanCreationError::FrameTooShort { size: buf@.len() as usize }),
            end >= buf_start + DOUBLE_TAGGED_ETHER_TYPE_END && buf@.len()
                >= DOUBLE_TAGGED_ETHER_TYPE_END && spec_lookup(spec_inner_code(buf@)) is None ==> r
                == Err::<(EtherFrame<'a>, &'a [u8]), EthernetBpfWithVlanCreationError>(
                EthernetBpfWithVlanCreationError::NoRecognizedEtherType {
                    ether_type: spec_inner_code(buf@),
                },
            ),
            end >= buf_start + DOUBLE_TAGGED_ETHER_TYPE_END && buf@.len()
                >= DOUBLE_TAGGED_ETHER_TYPE_END && spec_lookup(spec_inner_code(buf@)) is Some ==> (
            r matches Ok(p) && p.0.wf() && p.0@.vlan == spec_vlan_state(buf@) && p.0@.ether_type
                == spec_lookup(spec_inner_code(buf@)).unwrap() && p.0@.headers == buf@.subrange(
                0,
                PAYLOAD_START_NO_VLAN + spec_vlan_tag_len(buf@),
            ) && p.1@ == buf@.subrange(
                PAYLOAD_START_NO_VLAN + spec_vlan_tag_len(buf@),
                buf@.len() as int,
            )),
            buf@.len() < DOUBLE_TAGGED_ETHER_TYPE_END ==> r is Err,
    {
        // We read at most the first 22 bytes of the frame: 6 bytes dst MAC,
        // 6 bytes src MAC, two 4-byte VLAN tags, 2 bytes ether type.
        if end < DOUBLE_TAGGED_ETHER_TYPE_END || end - DOUBLE_TAGGED_ETHER_TYPE_END < buf_start {
            return Err(EthernetBpfWithVlanCreationError::BpfOutOfBounds);
        }
        if buf.len() < DOUBLE_TAGGED_ETHER_TYPE_END {
            return Err(EthernetBpfWithVlanCreationError::FrameTooShort { size: buf.len() });
        }
        let (ether_type, vlan_tag_len, vlan) = match Self::match_ether_type_with_vlan(buf) {
            Ok(m) => m,
            Err(e) => {
                return Err(EthernetBpfWithVlanCreationError::from(e));
            },
        };
        let (headers, payload) = buf.split_at(PAYLOAD_START_NO_VLAN + vlan_tag_len);
        Ok((EtherFrame { vlan, ether_type, headers }, payload))
    }

    /// The VLAN state recorded at construction.
    pub fn get_vlan(&self) -> (r: Option<Vlan>)
        ensures
            r == self@.vlan,
    {
        self.vlan
    }

    /// Inspect the 10-byte window at offset 12 and decide the VLAN layout:
    /// the single-tag marker, the stacked double-tag markers, or neither.
    /// Returns the classified inner EtherType, the total tag length in
    /// bytes, and the VLAN state.
    pub fn match_ether_type_with_vlan(frame: &[u8]) -> (r: Result<
        (EtherType, usize, Option<Vlan>),
        MatchEtherWithVlanError,
    >)
        ensures
            frame@.len() < DOUBLE_TAGGED_ETHER_TYPE_END ==> r == Err::<
                (EtherType, usize, Option<Vlan>),
                MatchEtherWithVlanError,
            >(MatchEtherWithVlanError::OutOfBoundsBufferAccess),
            frame@.len() >= DOUBLE_TAGGED_ETHER_TYPE_END && spec_lookup(
                spec_inner_code(frame@),
            ) is Some ==> r == Ok::<(EtherType, usize, Option<Vlan>), MatchEtherWithVlanError>(
                (
                    spec_lookup(spec_inner_code(frame@)).unwrap(),
                    spec_vlan_tag_len(frame@) as usize,
                    spec_vlan_state(frame@),
                ),
            ),
            frame@.len() >= DOUBLE_TAGGED_ETHER_TYPE_END && spec_lookup(
                spec_inner_code(frame@),
            ) is None ==> r == Err::<(EtherType, usize, Option<Vlan>), MatchEtherWithVlanError>(
                MatchEtherWithVlanError::NoRecognizedEtherType {
                    ether_type: spec_inner_code(frame@),
                },
            ),
    {
        if frame.len() < DOUBLE_TAGGED_ETHER_TYPE_END {
            return Err(MatchEtherWithVlanError::OutOfBoundsBufferAccess);
        }
        if frame[12] == 0x81 && frame[13] == 0x00 {
            match EtherType::lookup(u16_from_be_pair(frame[16], frame[17])) {
                Ok(t) => Ok((t, 4, Some(Vlan::SingleTagged))),
                Err(e) => Err(MatchEtherWithVlanError::from(e)),
            }
        } else if frame[12] == 0x88 && frame[13] == 0xA8 && frame[16] == 0x81 && frame[17] == 0x00 {
            match EtherType::lookup(u16_from_be_pair(frame[20], frame[21])) {
                Ok(t) => Ok((t, 8, Some(Vlan::DoubleTagged))),
                Err(e) => Err(MatchEtherWithVlanError::from(e)),
            }
        } else {
            match EtherType::lookup(u16_from_be_pair(frame[12], frame[13])) {
                Ok(t) => Ok((t, 0, None)),
                Err(e) => Err(MatchEtherWithVlanError::from(e)),
            }
        }
    }

    /// Destination MAC: the first six header bytes, independent of the VLAN
    /// state.  Bounds are checked explicitly, never assumed.
    pub fn get_destination(&self) -> (r: Result<[u8; 6], GetHeaderError>)
        ensures
            self@.headers.len() >= DESTINATION_MAC_END ==> (r matches Ok(a) && a@
                == spec_destination(self@)),
            self@.headers.len() < DESTINATION_MAC_END ==> r == Err::<[u8; 6], GetHeaderError>(
                GetHeaderError::OutOfBoundsBufferAccess,
            ),
            self.wf() ==> r is Ok,
    {
        if self.headers.len() < DESTINATION_MAC_END {
            return Err(GetHeaderError::OutOfBoundsBufferAccess);
        }
        let a = [
            self.headers[0],
            self.headers[1],
            self.headers[2],
            self.headers[3],
            self.headers[4],
            self.headers[5],
        ];
        proof {
            assert(a@ =~= spec_destination(self@));
        }
        Ok(a)
    }

    /// Source MAC: header bytes 6..12, independent of the VLAN state.
    pub fn get_source(&self) -> (r: Result<[u8; 6], GetHeaderError>)
        ensures
            self@.headers.len() >= SOURCE_MAC_END ==> (r matches Ok(a) && a@ == spec_source(
                self@,
            )),
            self@.headers.len() < SOURCE_MAC_END ==> r == Err::<[u8; 6], GetHeaderError>(
                GetHeaderError::OutOfBoundsBufferAccess,
            ),
            self.wf() ==> r is Ok,
    {
        if self.headers.len() < SOURCE_MAC_END {
            return Err(GetHeaderError::OutOfBoundsBufferAccess);
        }
        let a = [
            self.headers[6],
            self.headers[7],
            self.headers[8],
            self.headers[9],
            self.headers[10],
            self.headers[11],
        ];
        proof {
            assert(a@ =~= spec_source(self@));
        }
        Ok(a)
    }

    /// The EtherType classified at construction; no further fallible work.
    pub fn get_typed_ether_type(&self) -> (r: EtherType)
        ensures
            r == self@.ether_type,
    {
        self.ether_type
    }

    /// The two raw EtherType bytes, read at the offset the VLAN state
    /// dictates: 12..14 untagged, 16..18 single-tagged, 20..22
    /// double-tagged.
    pub fn get_ether_type(&self) -> (r: Result<[u8; 2], GetHeaderError>)
        ensures
            self@.headers.len() >= spec_ether_type_start(self@.vlan) + 2 ==> (r matches Ok(a) && a@
                == self@.headers.subrange(
                spec_ether_type_start(self@.vlan),
                spec_ether_type_start(self@.vlan) + 2,
            )),
            self@.headers.len() < spec_ether_type_start(self@.vlan) + 2 ==> r == Err::<
                [u8; 2],
                GetHeaderError,
            >(GetHeaderError::OutOfBoundsBufferAccess),
            self.wf() ==> r is Ok,
    {
        let start: usize = match self.vlan {
            Some(Vlan::SingleTagged) => SINGLE_TAGGED_ETHER_TYPE_START,
            Some(Vlan::DoubleTagged) => DOUBLE_TAGGED_ETHER_TYPE_START,
            None => ETHER_TYPE_START,
        };
        if self.headers.len() < start + 2 {
            return Err(GetHeaderError::OutOfBoundsBufferAccess);
        }
        let a = [self.headers[start], self.headers[start + 1]];
        proof {
            assert(a@ =~= self@.headers.subrange(
                spec_ether_type_start(self@.vlan),
                spec_ether_type_start(self@.vlan) + 2,
            ));
        }
        Ok(a)
    }
}

/// Law: the destination and source MAC of a frame view depend on the header
/// bytes alone; two views over the same header bytes agree on both,
/// whatever their VLAN states.
pub proof fn lemma_mac_fields_ignore_vlan_state(a: FrameView, b: FrameView)
    requires
        a.headers == b.headers,
    ensures
        spec_destination(a) == spec_destination(b),
        spec_source(a) == spec_source(b),
{
}

/// Law: the EtherType offset shifts by exactly one 4-byte tag per VLAN
/// level, starting from the base offset 12.
pub proof fn lemma_ether_type_offset_tracks_vlan_state(v: Option<Vlan>)
    ensures
        spec_ether_type_start(v) == ETHER_TYPE_START + 4 * spec_tag_count(v),
{
}

} // verus!
