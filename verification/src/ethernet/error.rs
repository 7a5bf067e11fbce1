//! Error taxonomy of the Ethernet layer: one plain-data enum per operation,
//! each convertible without loss into the layer-wide [`EthernetError`].

use crate::ethernet::header_values::EtherTypeParsingError;
use vstd::prelude::*;

verus! {

/// Every failure the Ethernet layer can report, one variant per
/// originating operation.
#[derive(Copy, Clone, Eq, PartialEq, Debug)]
pub enum EthernetError {
    BpfCreation(EthernetBpfCreationError),
    BpfWithVlanCreation(EthernetBpfWithVlanCreationError),
    MatchEtherWithVlan(MatchEtherWithVlanError),
    GetHeader(GetHeaderError),
    GetFirstVlanParameter(GetFirstVlanParameterError),
    GetSecondVlanParameter(GetSecondVlanParameterError),
    CutFirstVlanTag(CutFirstVlanTagError),
    CutBothVlanTags(CutBothVlanTagsError),
}

/// Failures of the untagged frame constructor.
#[derive(Copy, Clone, Eq, PartialEq, Debug)]
pub enum EthernetBpfCreationError {
    NoRecognizedEtherType { ether_type: u16 },
    FrameTooShort { size: usize },
    BpfOutOfBounds,
    OutOfBoundsBufferAccess,
    CouldNotConvertSliceToArray,
}

/// Failures of the VLAN-aware frame constructor.
#[derive(Copy, Clone, Eq, PartialEq, Debug)]
pub enum EthernetBpfWithVlanCreationError {
    NoRecognizedEtherType { ether_type: u16 },
    FrameTooShort { size: usize },
    BpfOutOfBounds,
    OutOfBoundsBufferAccess,
    CouldNotConvertSliceToArray,
}

/// Failures of the VLAN matcher.
#[derive(Copy, Clone, Eq, PartialEq, Debug)]
pub enum MatchEtherWithVlanError {
    NoRecognizedEtherType { ether_type: u16 },
    OutOfBoundsBufferAccess,
    CouldNotConvertSliceToArray,
}

/// Failures of the header field accessors.
#[derive(Copy, Clone, Eq, PartialEq, Debug)]
pub enum GetHeaderError {
    OutOfBoundsBufferAccess,
    CouldNotConvertSliceToArray,
}

/// Failures of an accessor for the first VLAN tag's parameter field.
#[derive(Copy, Clone, Eq, PartialEq, Debug)]
pub enum GetFirstVlanParameterError {
    NotVlanTagged,
    OutOfBoundsBufferAccess,
    CouldNotConvertSliceToArray,
}

/// Failures of an accessor for the second VLAN tag's parameter field.
#[derive(Copy, Clone, Eq, PartialEq, Debug)]
pub enum GetSecondVlanParameterError {
    NotVlanTagged,
    NotVlanDoubleTagged,
    OutOfBoundsBufferAccess,
    CouldNotConvertSliceToArray,
}

/// Failures of an operation that strips the first VLAN tag.
#[derive(Copy, Clone, Eq, PartialEq, Debug)]
pub enum CutFirstVlanTagError {
    NotVlanTagged,
    CouldNotConvertSliceToArray,
}

/// Failures of an operation that strips both VLAN tags.
#[derive(Copy, Clone, Eq, PartialEq, Debug)]
pub enum CutBothVlanTagsError {
    NotVlanTagged,
    NotVlanDoubleTagged,
    CouldNotConvertSliceToArray,
}

impl From<EtherTypeParsingError> for EthernetBpfCreationError {
    fn from(value: EtherTypeParsingError) -> (r: Self) {
        match value {
            EtherTypeParsingError::NoRecognizedEtherType { ether_type } => {
                Self::NoRecognizedEtherType { ether_type }
            },
        }
    }
}

impl vstd::std_specs::convert::FromSpecImpl<EtherTypeParsingError> for EthernetBpfCreationError {
    open spec fn obeys_from_spec() -> bool {
        true
    }

    open spec fn from_spec(value: EtherTypeParsingError) -> Self {
        match value {
            EtherTypeParsingError::NoRecognizedEtherType { ether_type } => {
                EthernetBpfCreationError::NoRecognizedEtherType { ether_type }
            },
        }
    }
}

impl From<EtherTypeParsingError> for MatchEtherWithVlanError {
    fn from(value: EtherTypeParsingError) -> (r: Self) {
        match value {
            EtherTypeParsingError::NoRecognizedEtherType { ether_type } => {
                Self::NoRecognizedEtherType { ether_type }
            },
        }
    }
}

impl vstd::std_specs::convert::FromSpecImpl<EtherTypeParsingError> for MatchEtherWithVlanError {
    open spec fn obeys_from_spec() -> bool {
        true
    }

    open spec fn from_spec(value: EtherTypeParsingError) -> Self {
        match value {
            EtherTypeParsingError::NoRecognizedEtherType { ether_type } => {
                MatchEtherWithVlanError::NoRecognizedEtherType { ether_type }
            },
        }
    }
}

impl From<MatchEtherWithVlanError> for EthernetBpfWithVlanCreationError {
    fn from(value: MatchEtherWithVlanError) -> (r: Self) {
        match value {
            MatchEtherWithVlanError::NoRecognizedEtherType { ether_type } => {
                Self::NoRecognizedEtherType { ether_type }
            },
            MatchEtherWithVlanError::OutOfBoundsBufferAccess => Self::OutOfBoundsBufferAccess,
            MatchEtherWithVlanError::CouldNotConvertSliceToArray => {
                Self::CouldNotConvertSliceToArray
            },
        }
    }
}

impl vstd::std_specs::convert::FromSpecImpl<MatchEtherWithVlanError> for EthernetBpfWithVlanCreationError {
    open spec fn obeys_from_spec() -> bool {
        true
    }

    open spec fn from_spec(value: MatchEtherWithVlanError) -> Self {
        match value {
            MatchEtherWithVlanError::NoRecognizedEtherType { ether_type } => {
                EthernetBpfWithVlanCreationError::NoRecognizedEtherType { ether_type }
            },
            MatchEtherWithVlanError::OutOfBoundsBufferAccess => {
                EthernetBpfWithVlanCreationError::OutOfBoundsBufferAccess
            },
            MatchEtherWithVlanError::CouldNotConvertSliceToArray => {
                EthernetBpfWithVlanCreationError::CouldNotConvertSliceToArray
            },
        }
    }
}

impl From<EthernetBpfCreationError> for EthernetError {
    fn from(value: EthernetBpfCreationError) -> (r: Self) {
        Self::BpfCreation(value)
    }
}

impl vstd::std_specs::convert::FromSpecImpl<EthernetBpfCreationError> for EthernetError {
    open spec fn obeys_from_spec() -> bool {
        true
    }

    open spec fn from_spec(value: EthernetBpfCreationError) -> Self {
        EthernetError::BpfCreation(value)
    }
}

impl From<EthernetBpfWithVlanCreationError> for EthernetError {
    fn from(value: EthernetBpfWithVlanCreationError) -> (r: Self) {
        Self::BpfWithVlanCreation(value)
    }
}

impl vstd::std_specs::convert::FromSpecImpl<EthernetBpfWithVlanCreationError> for EthernetError {
    open spec fn obeys_from_spec() -> bool {
        true
    }

    open spec fn from_spec(value: EthernetBpfWithVlanCreationError) -> Self {
        EthernetError::BpfWithVlanCreation(value)
    }
}

impl From<MatchEtherWithVlanError> for EthernetError {
    fn from(value: MatchEtherWithVlanError) -> (r: Self) {
        Self::MatchEtherWithVlan(value)
    }
}

impl vstd::std_specs::convert::FromSpecImpl<MatchEtherWithVlanError> for EthernetError {
    open spec fn obeys_from_spec() -> bool {
        true
    }

    open spec fn from_spec(value: MatchEtherWithVlanError) -> Self {
        EthernetError::MatchEtherWithVlan(value)
    }
}

impl From<GetHeaderError> for EthernetError {
    fn from(value: GetHeaderError) -> (r: Self) {
        Self::GetHeader(value)
    }
}

impl vstd::std_specs::convert::FromSpecImpl<GetHeaderError> for EthernetError {
    open spec fn obeys_from_spec() -> bool {
        true
    }

    open spec fn from_spec(value: GetHeaderError) -> Self {
        EthernetError::GetHeader(value)
    }
}

impl From<GetFirstVlanParameterError> for EthernetError {
    fn from(value: GetFirstVlanParameterError) -> (r: Self) {
        Self::GetFirstVlanParameter(value)
    }
}

impl vstd::std_specs::convert::FromSpecImpl<GetFirstVlanParameterError> for EthernetError {
    open spec fn obeys_from_spec() -> bool {
        true
    }

    open spec fn from_spec(value: GetFirstVlanParameterError) -> Self {
        EthernetError::GetFirstVlanParameter(value)
    }
}

impl From<GetSecondVlanParameterError> for EthernetError {
    fn from(value: GetSecondVlanParameterError) -> (r: Self) {
        Self::GetSecondVlanParameter(value)
    }
}

impl vstd::std_specs::convert::FromSpecImpl<GetSecondVlanParameterError> for EthernetError {
    open spec fn obeys_from_spec() -> bool {
        true
    }

    open spec fn from_spec(value: GetSecondVlanParameterError) -> Self {
        EthernetError::GetSecondVlanParameter(value)
    }
}

impl From<CutFirstVlanTagError> for EthernetError {
    fn from(value: CutFirstVlanTagError) -> (r: Self) {
        Self::CutFirstVlanTag(value)
    }
}

impl vstd::std_specs::convert::FromSpecImpl<CutFirstVlanTagError> for EthernetError {
    open spec fn obeys_from_spec() -> bool {
        true
    }

    open spec fn from_spec(value: CutFirstVlanTagError) -> Self {
        EthernetError::CutFirstVlanTag(value)
    }
}

impl From<CutBothVlanTagsError> for EthernetError {
    fn from(value: CutBothVlanTagsError) -> (r: Self) {
        Self::CutBothVlanTags(value)
    }
}

impl vstd::std_specs::convert::FromSpecImpl<CutBothVlanTagsError> for EthernetError {
    open spec fn obeys_from_spec() -> bool {
        true
    }

    open spec fn from_spec(value: CutBothVlanTagsError) -> Self {
        EthernetError::CutBothVlanTags(value)
    }
}

} // verus!
