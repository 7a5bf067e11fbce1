use packet_parser::ethernet::{EtherType, EtherTypeParsingError};

fn all_recognized() -> Vec<EtherType> {
    vec![
        EtherType::IpV4,
        EtherType::Arp,
        EtherType::WakeOnLan,
        EtherType::Avtp,
        EtherType::Srp,
        EtherType::Rarp,
        EtherType::AppleTalk,
        EtherType::Aarp,
        EtherType::Slpp,
        EtherType::Vlacp,
        EtherType::Ipx,
        EtherType::QnxQnet,
        EtherType::IpV6,
        EtherType::EthernetFlowControl,
        EtherType::EthernetSlowProtocols,
        EtherType::CobraNet,
        EtherType::MplsUnicast,
        EtherType::MplsMulticast,
        EtherType::PppoeDiscoveryStage,
        EtherType::PppoeSessionStage,
        EtherType::HomePlug1_0Mme,
        EtherType::EapOverLan,
        EtherType::Profinet,
        EtherType::HyperScsi,
        EtherType::AtaOverEthernet,
        EtherType::EtherCat,
        EtherType::EthernetPowerlink,
        EtherType::Goose,
        EtherType::GseManagementServices,
        EtherType::Sv,
        EtherType::Lldp,
        EtherType::Sercos3,
        EtherType::HomePlugGreenPhy,
        EtherType::MediaRedundancyProtocol,
        EtherType::MacSec,
        EtherType::Pbb,
        EtherType::Ptp,
        EtherType::NcSi,
        EtherType::Prp,
        EtherType::Fcoe,
        EtherType::Mediaxtream,
        EtherType::FcoeInitializationProtocol,
        EtherType::Roce,
        EtherType::Tte,
        EtherType::Hsr,
        EtherType::EthernetConfigurationTestingProtocol,
        EtherType::RTag,
    ]
}

#[test]
fn lookup_known_codes() {
    assert_eq!(EtherType::lookup(0x0800), Ok(EtherType::IpV4));
    assert_eq!(EtherType::lookup(0x0806), Ok(EtherType::Arp));
    assert_eq!(EtherType::lookup(0x86DD), Ok(EtherType::IpV6));
    assert_eq!(EtherType::lookup(0x88CC), Ok(EtherType::Lldp));
    assert_eq!(EtherType::lookup(0xF1C1), Ok(EtherType::RTag));
}

#[test]
fn lookup_round_trip_over_all_recognized_variants() {
    for t in all_recognized() {
        let code = t.code();
        assert_eq!(EtherType::lookup(code), Ok(t));
    }
}

#[test]
fn recognized_codes_are_distinct() {
    let all = all_recognized();
    for (i, a) in all.iter().enumerate() {
        for b in all.iter().skip(i + 1) {
            assert_ne!(a.code(), b.code());
        }
    }
}

#[test]
fn lookup_unrecognized_value_reports_it() {
    assert_eq!(
        EtherType::lookup(0x1234),
        Err(EtherTypeParsingError::NoRecognizedEtherType { ether_type: 0x1234 })
    );
    assert_eq!(
        EtherType::lookup(0x0000),
        Err(EtherTypeParsingError::NoRecognizedEtherType { ether_type: 0x0000 })
    );
}

#[test]
fn lookup_never_returns_the_sentinel() {
    // The sentinel occupies the reserved code 0xFFFF; looking that code up
    // fails rather than exposing the sentinel.
    assert_eq!(
        EtherType::lookup(0xFFFF),
        Err(EtherTypeParsingError::NoRecognizedEtherType { ether_type: 0xFFFF })
    );
    assert_eq!(EtherType::EtherTypeErrorVariant.code(), 0xFFFF);
}

#[test]
fn vlan_tag_markers_are_not_recognized_ether_types() {
    // Tag markers are consumed by the VLAN matcher before classification.
    assert!(EtherType::lookup(0x8100).is_err());
    assert!(EtherType::lookup(0x88A8).is_err());
}
