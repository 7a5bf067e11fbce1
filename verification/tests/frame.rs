use packet_parser::ethernet::{
    EtherFrame, EtherType, EthernetBpfCreationError, EthernetBpfWithVlanCreationError,
    MatchEtherWithVlanError, Vlan,
};

const DST: [u8; 6] = [0x6A, 0x00, 0x11, 0x22, 0x33, 0x44];
const SRC: [u8; 6] = [0x02, 0xAB, 0xCD, 0xEF, 0x01, 0x23];

/// A frame buffer: both MACs, then the given bytes from offset 12 on,
/// padded with `payload` bytes.
fn frame(after_macs: &[u8], payload: &[u8]) -> Vec<u8> {
    let mut v = Vec::new();
    v.extend_from_slice(&DST);
    v.extend_from_slice(&SRC);
    v.extend_from_slice(after_macs);
    v.extend_from_slice(payload);
    v
}

/// A generous end bound: the buffer's claimed start plus its full length.
fn end_of(buf: &[u8], start: usize) -> usize {
    start + buf.len()
}

#[test]
fn new_bpf_too_short_fails_for_every_length() {
    let raw = [0u8; 13];
    for len in 0..14 {
        let buf = &raw[..len];
        let r = EtherFrame::new_bpf(buf, 0, 1000);
        assert_eq!(r, Err(EthernetBpfCreationError::FrameTooShort { size: len }));
    }
}

#[test]
fn new_bpf_succeeds_on_untagged_lengths() {
    // Lengths in [14, 22) without VLAN markers, with a recognized EtherType.
    for extra in 0..8 {
        let payload = vec![7u8; extra];
        let buf = frame(&[0x08, 0x00], &payload);
        assert_eq!(buf.len(), 14 + extra);
        let (f, rest) = EtherFrame::new_bpf(&buf, 0, end_of(&buf, 0)).unwrap();
        assert_eq!(f.get_vlan(), None);
        assert_eq!(f.get_typed_ether_type(), EtherType::IpV4);
        assert_eq!(rest.len(), extra);
        assert_eq!(rest, &payload[..]);
        // Header covers exactly the first 14 bytes.
        assert_eq!(f.get_destination().unwrap(), DST);
        assert_eq!(f.get_source().unwrap(), SRC);
        assert_eq!(f.get_ether_type().unwrap(), [0x08, 0x00]);
    }
}

#[test]
fn new_bpf_unrecognized_ether_type_fails() {
    let buf = frame(&[0xAB, 0xCD], &[0u8; 4]);
    let r = EtherFrame::new_bpf(&buf, 0, end_of(&buf, 0));
    assert_eq!(
        r,
        Err(EthernetBpfCreationError::NoRecognizedEtherType { ether_type: 0xABCD })
    );
}

#[test]
fn new_bpf_with_vlan_single_tag() {
    // Tag 81 00 00 05, inner EtherType 08 00: one VLAN tag, IPv4 inside.
    let buf = frame(&[0x81, 0x00, 0x00, 0x05, 0x08, 0x00], &[0xDE, 0xAD, 0xBE, 0xEF, 0x55]);
    let (f, payload) = EtherFrame::new_bpf_with_vlan(&buf, 0, end_of(&buf, 0)).unwrap();
    assert_eq!(f.get_vlan(), Some(Vlan::SingleTagged));
    assert_eq!(f.get_typed_ether_type(), EtherType::IpV4);
    // Payload starts at byte 18.
    assert_eq!(payload, &buf[18..]);
    assert_eq!(f.get_destination().unwrap(), DST);
    assert_eq!(f.get_source().unwrap(), SRC);
    assert_eq!(f.get_ether_type().unwrap(), [0x08, 0x00]);
}

#[test]
fn new_bpf_with_vlan_double_tag() {
    // 88 A8 00 00 81 00 00 05 08 00: two stacked tags, IPv4 inside.
    let buf = frame(
        &[0x88, 0xA8, 0x00, 0x00, 0x81, 0x00, 0x00, 0x05, 0x08, 0x00],
        &[1, 2, 3],
    );
    let (f, payload) = EtherFrame::new_bpf_with_vlan(&buf, 0, end_of(&buf, 0)).unwrap();
    assert_eq!(f.get_vlan(), Some(Vlan::DoubleTagged));
    assert_eq!(f.get_typed_ether_type(), EtherType::IpV4);
    // Payload starts at byte 22.
    assert_eq!(payload, &buf[22..]);
    assert_eq!(f.get_ether_type().unwrap(), [0x08, 0x00]);
}

#[test]
fn new_bpf_with_vlan_untagged_frame() {
    let buf = frame(&[0x86, 0xDD], &[0u8; 10]);
    let (f, payload) = EtherFrame::new_bpf_with_vlan(&buf, 0, end_of(&buf, 0)).unwrap();
    assert_eq!(f.get_vlan(), None);
    assert_eq!(f.get_typed_ether_type(), EtherType::IpV6);
    assert_eq!(payload, &buf[14..]);
}

#[test]
fn new_bpf_with_vlan_too_short_fails() {
    let raw = [0x11u8; 21];
    for len in 0..22 {
        let buf = &raw[..len];
        let r = EtherFrame::new_bpf_with_vlan(buf, 0, 1000);
        assert_eq!(
            r,
            Err(EthernetBpfWithVlanCreationError::FrameTooShort { size: len })
        );
    }
}

#[test]
fn boundary_check_fails_even_when_length_suffices() {
    // 30 bytes of buffer, but the asserted end leaves fewer than the
    // required window past the claimed start.
    let buf = frame(&[0x08, 0x00], &[0u8; 16]);
    assert!(buf.len() >= 22);
    let start = 1_000_000;
    assert_eq!(
        EtherFrame::new_bpf(&buf, start, start + 13),
        Err(EthernetBpfCreationError::BpfOutOfBounds)
    );
    assert_eq!(
        EtherFrame::new_bpf_with_vlan(&buf, start, start + 21),
        Err(EthernetBpfWithVlanCreationError::BpfOutOfBounds)
    );
    // The two constructors demand different windows: an end bound good for
    // 14 bytes but not for 22 splits them.
    assert!(EtherFrame::new_bpf(&buf, start, start + 14).is_ok());
    assert_eq!(
        EtherFrame::new_bpf_with_vlan(&buf, start, start + 21),
        Err(EthernetBpfWithVlanCreationError::BpfOutOfBounds)
    );
}

#[test]
fn mac_accessors_agree_across_vlan_states() {
    let untagged = frame(&[0x08, 0x00], &[0u8; 8]);
    let single = frame(&[0x81, 0x00, 0x00, 0x05, 0x08, 0x00], &[0u8; 8]);
    let double = frame(
        &[0x88, 0xA8, 0x00, 0x00, 0x81, 0x00, 0x00, 0x05, 0x08, 0x00],
        &[0u8; 8],
    );

    let (f0, _) = EtherFrame::new_bpf_with_vlan(&untagged, 0, end_of(&untagged, 0)).unwrap();
    let (f1, _) = EtherFrame::new_bpf_with_vlan(&single, 0, end_of(&single, 0)).unwrap();
    let (f2, _) = EtherFrame::new_bpf_with_vlan(&double, 0, end_of(&double, 0)).unwrap();

    assert_eq!(f0.get_vlan(), None);
    assert_eq!(f1.get_vlan(), Some(Vlan::SingleTagged));
    assert_eq!(f2.get_vlan(), Some(Vlan::DoubleTagged));

    // Destination and source come out identical whatever the VLAN state.
    assert_eq!(f0.get_destination().unwrap(), DST);
    assert_eq!(f1.get_destination().unwrap(), DST);
    assert_eq!(f2.get_destination().unwrap(), DST);
    assert_eq!(f0.get_source().unwrap(), SRC);
    assert_eq!(f1.get_source().unwrap(), SRC);
    assert_eq!(f2.get_source().unwrap(), SRC);

    // The EtherType offset shifts with the state: 12..14, 16..18, 20..22.
    assert_eq!(f0.get_ether_type().unwrap(), [untagged[12], untagged[13]]);
    assert_eq!(f1.get_ether_type().unwrap(), [single[16], single[17]]);
    assert_eq!(f2.get_ether_type().unwrap(), [double[20], double[21]]);
}

#[test]
fn match_ether_type_with_vlan_short_window_fails() {
    let buf = [0u8; 21];
    assert_eq!(
        EtherFrame::match_ether_type_with_vlan(&buf),
        Err(MatchEtherWithVlanError::OutOfBoundsBufferAccess)
    );
}

#[test]
fn match_ether_type_with_vlan_reports_tag_lengths() {
    let untagged = frame(&[0x08, 0x00], &[0u8; 8]);
    let single = frame(&[0x81, 0x00, 0x00, 0x05, 0x86, 0xDD], &[0u8; 8]);
    let double = frame(
        &[0x88, 0xA8, 0x00, 0x00, 0x81, 0x00, 0x00, 0x05, 0x08, 0x06],
        &[0u8; 8],
    );
    assert_eq!(
        EtherFrame::match_ether_type_with_vlan(&untagged),
        Ok((EtherType::IpV4, 0, None))
    );
    assert_eq!(
        EtherFrame::match_ether_type_with_vlan(&single),
        Ok((EtherType::IpV6, 4, Some(Vlan::SingleTagged)))
    );
    assert_eq!(
        EtherFrame::match_ether_type_with_vlan(&double),
        Ok((EtherType::Arp, 8, Some(Vlan::DoubleTagged)))
    );
}

#[test]
fn malformed_input_never_panics() {
    // All-zero and all-0xFF buffers, truncated at every length up to the
    // full double-tagged header: every outcome is a defined error value.
    for len in 0..=21 {
        let zeros = vec![0u8; len];
        let ones = vec![0xFFu8; len];
        for buf in [&zeros, &ones] {
            assert!(EtherFrame::new_bpf_with_vlan(buf, 0, 1000).is_err());
            if len < 14 {
                assert!(EtherFrame::new_bpf(buf, 0, 1000).is_err());
            } else {
                // Length suffices, but 0x0000 / 0xFFFF are unrecognized.
                let raw = u16::from_be_bytes([buf[12], buf[13]]);
                assert_eq!(
                    EtherFrame::new_bpf(buf, 0, 1000),
                    Err(EthernetBpfCreationError::NoRecognizedEtherType { ether_type: raw })
                );
            }
        }
    }
    let zeros = vec![0u8; 22];
    let ones = vec![0xFFu8; 22];
    assert_eq!(
        EtherFrame::new_bpf_with_vlan(&zeros, 0, 1000),
        Err(EthernetBpfWithVlanCreationError::NoRecognizedEtherType { ether_type: 0x0000 })
    );
    assert_eq!(
        EtherFrame::new_bpf_with_vlan(&ones, 0, 1000),
        Err(EthernetBpfWithVlanCreationError::NoRecognizedEtherType { ether_type: 0xFFFF })
    );
}
