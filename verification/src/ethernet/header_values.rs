//! The EtherType classifier: a closed set of recognized 16-bit wire codes.
//!
//! `EtherType::lookup` maps a raw 16-bit value to the variant whose wire code
//! equals it, or to a typed error when the value is not in the recognized
//! set.  The trailing `EtherTypeErrorVariant` is a reserved sentinel that
//! marks unset slots internally; it is never returned by `lookup`.
//!
//! `lookup` is written as a single bounded match over the closed code set.
//! An indexed read from a table of 65536 precomputed slots has the same
//! external contract and trades memory for a branch-free body; either form
//! is total, and the laws at the end of this module hold of both.

use vstd::prelude::*;

verus! {

/// The payload protocols an Ethernet frame can announce in its EtherType
/// field, one variant per recognized 16-bit wire code, plus the reserved
/// sentinel `EtherTypeErrorVariant` (wire code 0xFFFF), which `lookup`
/// never returns.
#[derive(Copy, Clone, PartialEq, Eq, Debug)]
pub enum EtherType {
    IpV4,
    Arp,
    WakeOnLan,
    Avtp,
    Srp,
    Rarp,
    AppleTalk,
    Aarp,
    Slpp,
    Vlacp,
    Ipx,
    QnxQnet,
    IpV6,
    EthernetFlowControl,
    EthernetSlowProtocols,
    CobraNet,
    MplsUnicast,
    MplsMulticast,
    PppoeDiscoveryStage,
    PppoeSessionStage,
    HomePlug1_0Mme,
    EapOverLan,
    Profinet,
    HyperScsi,
    AtaOverEthernet,
    EtherCat,
    EthernetPowerlink,
    Goose,
    GseManagementServices,
    Sv,
    Lldp,
    Sercos3,
    HomePlugGreenPhy,
    MediaRedundancyProtocol,
    MacSec,
    Pbb,
    Ptp,
    NcSi,
    Prp,
    Fcoe,
    Mediaxtream,
    FcoeInitializationProtocol,
    Roce,
    Tte,
    Hsr,
    EthernetConfigurationTestingProtocol,
    RTag,
    EtherTypeErrorVariant,
}

/// Classification failure: the raw 16-bit value is not in the recognized
/// code set.
#[derive(Copy, Clone, Eq, PartialEq, Debug)]
pub enum EtherTypeParsingError {
    NoRecognizedEtherType { ether_type: u16 },
}

/// The wire code of each variant.  The sentinel occupies the reserved code
/// 0xFFFF, which `spec_lookup` maps to `None`.
pub open spec fn code_of(t: EtherType) -> u16 {
    match t {
        EtherType::IpV4 => 0x0800,
        EtherType::Arp => 0x0806,
        EtherType::WakeOnLan => 0x0842,
        EtherType::Avtp => 0x22F0,
        EtherType::Srp => 0x22EA,
        EtherType::Rarp => 0x8035,
        EtherType::AppleTalk => 0x809B,
        EtherType::Aarp => 0x80F3,
        EtherType::Slpp => 0x8102,
        EtherType::Vlacp => 0x8103,
        EtherType::Ipx => 0x8137,
        EtherType::QnxQnet => 0x8204,
        EtherType::IpV6 => 0x86DD,
        EtherType::EthernetFlowControl => 0x8808,
        EtherType::EthernetSlowProtocols => 0x8809,
        EtherType::CobraNet => 0x8819,
        EtherType::MplsUnicast => 0x8847,
        EtherType::MplsMulticast => 0x8848,
        EtherType::PppoeDiscoveryStage => 0x8863,
        EtherType::PppoeSessionStage => 0x8864,
        EtherType::HomePlug1_0Mme => 0x887B,
        EtherType::EapOverLan => 0x888E,
        EtherType::Profinet => 0x8892,
        EtherType::HyperScsi => 0x889A,
        EtherType::AtaOverEthernet => 0x88A2,
        EtherType::EtherCat => 0x88A4,
        EtherType::EthernetPowerlink => 0x88AB,
        EtherType::Goose => 0x88B8,
        EtherType::GseManagementServices => 0x88B9,
        EtherType::Sv => 0x88BA,
        EtherType::Lldp => 0x88CC,
        EtherType::Sercos3 => 0x88CD,
        EtherType::HomePlugGreenPhy => 0x88E1,
        EtherType::MediaRedundancyProtocol => 0x88E3,
        EtherType::MacSec => 0x88E5,
        EtherType::Pbb => 0x88E7,
        EtherType::Ptp => 0x88F7,
        EtherType::NcSi => 0x88F8,
        EtherType::Prp => 0x88FB,
        EtherType::Fcoe => 0x8906,
        EtherType::Mediaxtream => 0x8912,
        EtherType::FcoeInitializationProtocol => 0x8914,
        EtherType::Roce => 0x8915,
        EtherType::Tte => 0x891D,
        EtherType::Hsr => 0x892F,
        EtherType::EthernetConfigurationTestingProtocol => 0x9000,
        EtherType::RTag => 0xF1C1,
        EtherType::EtherTypeErrorVariant => 0xFFFF,
    }
}

/// The classification function: the unique non-sentinel variant whose wire
/// code equals `v`, or `None` when `v` is outside the recognized set.
pub open spec fn spec_lookup(v: u16) -> Option<EtherType> {
    if v == 0x0800 {
        Some(EtherType::IpV4)
    } else if v == 0x0806 {
        Some(EtherType::Arp)
    } else if v == 0x0842 {
        Some(EtherType::WakeOnLan)
    } else if v == 0x22F0 {
        Some(EtherType::Avtp)
    } else if v == 0x22EA {
        Some(EtherType::Srp)
    } else if v == 0x8035 {
        Some(EtherType::Rarp)
    } else if v == 0x809B {
        Some(EtherType::AppleTalk)
    } else if v == 0x80F3 {
        Some(EtherType::Aarp)
    } else if v == 0x8102 {
        Some(EtherType::Slpp)
    } else if v == 0x8103 {
        Some(EtherType::Vlacp)
    } else if v == 0x8137 {
        Some(EtherType::Ipx)
    } else if v == 0x8204 {
        Some(EtherType::QnxQnet)
    } else if v == 0x86DD {
        Some(EtherType::IpV6)
    } else if v == 0x8808 {
        Some(EtherType::EthernetFlowControl)
    } else if v == 0x8809 {
        Some(EtherType::EthernetSlowProtocols)
    } else if v == 0x8819 {
        Some(EtherType::CobraNet)
    } else if v == 0x8847 {
        Some(EtherType::MplsUnicast)
    } else if v == 0x8848 {
        Some(EtherType::MplsMulticast)
    } else if v == 0x8863 {
        Some(EtherType::PppoeDiscoveryStage)
    } else if v == 0x8864 {
        Some(EtherType::PppoeSessionStage)
    } else if v == 0x887B {
        Some(EtherType::HomePlug1_0Mme)
    } else if v == 0x888E {
        Some(EtherType::EapOverLan)
    } else if v == 0x8892 {
        Some(EtherType::Profinet)
    } else if v == 0x889A {
        Some(EtherType::HyperScsi)
    } else if v == 0x88A2 {
        Some(EtherType::AtaOverEthernet)
    } else if v == 0x88A4 {
        Some(EtherType::EtherCat)
    } else if v == 0x88AB {
        Some(EtherType::EthernetPowerlink)
    } else if v == 0x88B8 {
        Some(EtherType::Goose)
    } else if v == 0x88B9 {
        Some(EtherType::GseManagementServices)
    } else if v == 0x88BA {
        Some(EtherType::Sv)
    } else if v == 0x88CC {
        Some(EtherType::Lldp)
    } else if v == 0x88CD {
        Some(EtherType::Sercos3)
    } else if v == 0x88E1 {
        Some(EtherType::HomePlugGreenPhy)
    } else if v == 0x88E3 {
        Some(EtherType::MediaRedundancyProtocol)
    } else if v == 0x88E5 {
        Some(EtherType::MacSec)
    } else if v == 0x88E7 {
        Some(EtherType::Pbb)
    } else if v == 0x88F7 {
        Some(EtherType::Ptp)
    } else if v == 0x88F8 {
        Some(EtherType::NcSi)
    } else if v == 0x88FB {
        Some(EtherType::Prp)
    } else if v == 0x8906 {
        Some(EtherType::Fcoe)
    } else if v == 0x8912 {
        Some(EtherType::Mediaxtream)
    } else if v == 0x8914 {
        Some(EtherType::FcoeInitializationProtocol)
    } else if v == 0x8915 {
        Some(EtherType::Roce)
    } else if v == 0x891D {
        Some(EtherType::Tte)
    } else if v == 0x892F {
        Some(EtherType::Hsr)
    } else if v == 0x9000 {
        Some(EtherType::EthernetConfigurationTestingProtocol)
    } else if v == 0xF1C1 {
        Some(EtherType::RTag)
    } else {
        None
    }
}

impl EtherType {
    /// Classify a raw 16-bit wire value.  Total: every value maps to exactly
    /// one outcome, and the sentinel variant is never returned.
    pub fn lookup(value: u16) -> (r: Result<EtherType, EtherTypeParsingError>)
        ensures
            spec_lookup(value) matches Some(t) ==> r == Ok::<EtherType, EtherTypeParsingError>(t),
            spec_lookup(value) is None ==> r == Err::<EtherType, EtherTypeParsingError>(
                EtherTypeParsingError::NoRecognizedEtherType { ether_type: value },
            ),
            r matches Ok(t) ==> t != EtherType::EtherTypeErrorVariant,
    {
        match value {
            0x0800 => Ok(EtherType::IpV4),
            0x0806 => Ok(EtherType::Arp),
            0x0842 => Ok(EtherType::WakeOnLan),
            0x22F0 => Ok(EtherType::Avtp),
            0x22EA => Ok(EtherType::Srp),
            0x8035 => Ok(EtherType::Rarp),
            0x809B => Ok(EtherType::AppleTalk),
            0x80F3 => Ok(EtherType::Aarp),
            0x8102 => Ok(EtherType::Slpp),
            0x8103 => Ok(EtherType::Vlacp),
            0x8137 => Ok(EtherType::Ipx),
            0x8204 => Ok(EtherType::QnxQnet),
            0x86DD => Ok(EtherType::IpV6),
            0x8808 => Ok(EtherType::EthernetFlowControl),
            0x8809 => Ok(EtherType::EthernetSlowProtocols),
            0x8819 => Ok(EtherType::CobraNet),
            0x8847 => Ok(EtherType::MplsUnicast),
            0x8848 => Ok(EtherType::MplsMulticast),
            0x8863 => Ok(EtherType::PppoeDiscoveryStage),
            0x8864 => Ok(EtherType::PppoeSessionStage),
            0x887B => Ok(EtherType::HomePlug1_0Mme),
            0x888E => Ok(EtherType::EapOverLan),
            0x8892 => Ok(EtherType::Profinet),
            0x889A => Ok(EtherType::HyperScsi),
            0x88A2 => Ok(EtherType::AtaOverEthernet),
            0x88A4 => Ok(EtherType::EtherCat),
            0x88AB => Ok(EtherType::EthernetPowerlink),
            0x88B8 => Ok(EtherType::Goose),
            0x88B9 => Ok(EtherType::GseManagementServices),
            0x88BA => Ok(EtherType::Sv),
            0x88CC => Ok(EtherType::Lldp),
            0x88CD => Ok(EtherType::Sercos3),
            0x88E1 => Ok(EtherType::HomePlugGreenPhy),
            0x88E3 => Ok(EtherType::MediaRedundancyProtocol),
            0x88E5 => Ok(EtherType::MacSec),
            0x88E7 => Ok(EtherType::Pbb),
            0x88F7 => Ok(EtherType::Ptp),
            0x88F8 => Ok(EtherType::NcSi),
            0x88FB => Ok(EtherType::Prp),
            0x8906 => Ok(EtherType::Fcoe),
            0x8912 => Ok(EtherType::Mediaxtream),
            0x8914 => Ok(EtherType::FcoeInitializationProtocol),
            0x8915 => Ok(EtherType::Roce),
            0x891D => Ok(EtherType::Tte),
            0x892F => Ok(EtherType::Hsr),
            0x9000 => Ok(EtherType::EthernetConfigurationTestingProtocol),
            0xF1C1 => Ok(EtherType::RTag),
            _ => Err(EtherTypeParsingError::NoRecognizedEtherType { ether_type: value }),
        }
    }

    /// The wire code of this variant, as it appears on the wire in big-endian
    /// order.
    pub fn code(self) -> (r: u16)
        ensures
            r == code_of(self),
    {
        match self {
            EtherType::IpV4 => 0x0800,
            EtherType::Arp => 0x0806,
            EtherType::WakeOnLan => 0x0842,
            EtherType::Avtp => 0x22F0,
            EtherType::Srp => 0x22EA,
            EtherType::Rarp => 0x8035,
            EtherType::AppleTalk => 0x809B,
            EtherType::Aarp => 0x80F3,
            EtherType::Slpp => 0x8102,
            EtherType::Vlacp => 0x8103,
            EtherType::Ipx => 0x8137,
            EtherType::QnxQnet => 0x8204,
            EtherType::IpV6 => 0x86DD,
            EtherType::EthernetFlowControl => 0x8808,
            EtherType::EthernetSlowProtocols => 0x8809,
            EtherType::CobraNet => 0x8819,
            EtherType::MplsUnicast => 0x8847,
            EtherType::MplsMulticast => 0x8848,
            EtherType::PppoeDiscoveryStage => 0x8863,
            EtherType::PppoeSessionStage => 0x8864,
            EtherType::HomePlug1_0Mme => 0x887B,
            EtherType::EapOverLan => 0x888E,
            EtherType::Profinet => 0x8892,
            EtherType::HyperScsi => 0x889A,
            EtherType::AtaOverEthernet => 0x88A2,
            EtherType::EtherCat => 0x88A4,
            EtherType::EthernetPowerlink => 0x88AB,
            EtherType::Goose => 0x88B8,
            EtherType::GseManagementServices => 0x88B9,
            EtherType::Sv => 0x88BA,
            EtherType::Lldp => 0x88CC,
            EtherType::Sercos3 => 0x88CD,
            EtherType::HomePlugGreenPhy => 0x88E1,
            EtherType::MediaRedundancyProtocol => 0x88E3,
            EtherType::MacSec => 0x88E5,
            EtherType::Pbb => 0x88E7,
            EtherType::Ptp => 0x88F7,
            EtherType::NcSi => 0x88F8,
            EtherType::Prp => 0x88FB,
            EtherType::Fcoe => 0x8906,
            EtherType::Mediaxtream => 0x8912,
            EtherType::FcoeInitializationProtocol => 0x8914,
            EtherType::Roce => 0x8915,
            EtherType::Tte => 0x891D,
            EtherType::Hsr => 0x892F,
            EtherType::EthernetConfigurationTestingProtocol => 0x9000,
            EtherType::RTag => 0xF1C1,
            EtherType::EtherTypeErrorVariant => 0xFFFF,
        }
    }
}

/// Law: classification succeeds exactly on the recognized code set.  A value
/// is recognized when some non-sentinel variant carries it as wire code.
pub proof fn lemma_lookup_succeeds_iff_recognized(v: u16)
    ensures
        (spec_lookup(v) is Some) <==> (exists|t: EtherType|
            t != EtherType::EtherTypeErrorVariant && #[trigger] code_of(t) == v),
{
    if spec_lookup(v) is Some {
        let t = spec_lookup(v).unwrap();
        assert(t != EtherType::EtherTypeErrorVariant && code_of(t) == v);
    }
    if exists|t: EtherType| t != EtherType::EtherTypeErrorVariant && #[trigger] code_of(t) == v {
        let t = choose|t: EtherType|
            t != EtherType::EtherTypeErrorVariant && #[trigger] code_of(t) == v;
        lemma_lookup_of_code(t);
    }
}

/// Law: on success the classifier returns the unique variant whose wire code
/// equals the input, and that variant is never the sentinel; so the round
/// trip through `code_of` restores the input.
pub proof fn lemma_code_of_lookup(v: u16)
    ensures
        spec_lookup(v) matches Some(t) ==> code_of(t) == v && t
            != EtherType::EtherTypeErrorVariant,
        forall|t: EtherType|
            #[trigger] code_of(t) == v && t != EtherType::EtherTypeErrorVariant ==> spec_lookup(v)
                == Some(t),
{
}

/// Law: every non-sentinel variant is found again under its own wire code.
pub proof fn lemma_lookup_of_code(t: EtherType)
    requires
        t != EtherType::EtherTypeErrorVariant,
    ensures
        spec_lookup(code_of(t)) == Some(t),
{
}

} // verus!
