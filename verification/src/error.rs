//! The single top-level error type: every lower-level failure converts into
//! it without loss of its diagnostic payload.

use crate::ethernet::{
    CutBothVlanTagsError, CutFirstVlanTagError, EthernetBpfCreationError,
    EthernetBpfWithVlanCreationError, EthernetError, GetFirstVlanParameterError, GetHeaderError,
    GetSecondVlanParameterError, MatchEtherWithVlanError,
};
use vstd::prelude::*;

verus! {

/// Top-level error of the crate, holding exactly one variant per
/// originating component.
#[derive(Copy, Clone, Eq, PartialEq, Debug)]
pub enum Error {
    Ethernet(EthernetError),
}

impl From<EthernetError> for Error {
    fn from(value: EthernetError) -> (r: Self) {
        Self::Ethernet(value)
    }
}

impl vstd::std_specs::convert::FromSpecImpl<EthernetError> for Error {
    open spec fn obeys_from_spec() -> bool {
        true
    }

    open spec fn from_spec(value: EthernetError) -> Self {
        Error::Ethernet(value)
    }
}

impl From<EthernetBpfCreationError> for Error {
    fn from(value: EthernetBpfCreationError) -> (r: Self) {
        Self::Ethernet(EthernetError::BpfCreation(value))
    }
}

impl vstd::std_specs::convert::FromSpecImpl<EthernetBpfCreationError> for Error {
    open spec fn obeys_from_spec() -> bool {
        true
    }

    open spec fn from_spec(value: EthernetBpfCreationError) -> Self {
        Error::Ethernet(EthernetError::BpfCreation(value))
    }
}

impl From<EthernetBpfWithVlanCreationError> for Error {
    fn from(value: EthernetBpfWithVlanCreationError) -> (r: Self) {
        Self::Ethernet(EthernetError::BpfWithVlanCreation(value))
    }
}

impl vstd::std_specs::convert::FromSpecImpl<EthernetBpfWithVlanCreationError> for Error {
    open spec fn obeys_from_spec() -> bool {
        true
    }

    open spec fn from_spec(value: EthernetBpfWithVlanCreationError) -> Self {
        Error::Ethernet(EthernetError::BpfWithVlanCreation(value))
    }
}

impl From<MatchEtherWithVlanError> for Error {
    fn from(value: MatchEtherWithVlanError) -> (r: Self) {
        Self::Ethernet(EthernetError::MatchEtherWithVlan(value))
    }
}

impl vstd::std_specs::convert::FromSpecImpl<MatchEtherWithVlanError> for Error {
    open spec fn obeys_from_spec() -> bool {
        true
    }

    open spec fn from_spec(value: MatchEtherWithVlanError) -> Self {
        Error::Ethernet(EthernetError::MatchEtherWithVlan(value))
    }
}

impl From<GetHeaderError> for Error {
    fn from(value: GetHeaderError) -> (r: Self) {
        Self::Ethernet(EthernetError::GetHeader(value))
    }
}

impl vstd::std_specs::convert::FromSpecImpl<GetHeaderError> for Error {
    open spec fn obeys_from_spec() -> bool {
        true
    }

    open spec fn from_spec(value: GetHeaderError) -> Self {
        Error::Ethernet(EthernetError::GetHeader(value))
    }
}

impl From<GetFirstVlanParameterError> for Error {
    fn from(value: GetFirstVlanParameterError) -> (r: Self) {
        Self::Ethernet(EthernetError::GetFirstVlanParameter(value))
    }
}

impl vstd::std_specs::convert::FromSpecImpl<GetFirstVlanParameterError> for Error {
    open spec fn obeys_from_spec() -> bool {
        true
    }

    open spec fn from_spec(value: GetFirstVlanParameterError) -> Self {
        Error::Ethernet(EthernetError::GetFirstVlanParameter(value))
    }
}

impl From<GetSecondVlanParameterError> for Error {
    fn from(value: GetSecondVlanParameterError) -> (r: Self) {
        Self::Ethernet(EthernetError::GetSecondVlanParameter(value))
    }
}

impl vstd::std_specs::convert::FromSpecImpl<GetSecondVlanParameterError> for Error {
    open spec fn obeys_from_spec() -> bool {
        true
    }

    open spec fn from_spec(value: GetSecondVlanParameterError) -> Self {
        Error::Ethernet(EthernetError::GetSecondVlanParameter(value))
    }
}

impl From<CutFirstVlanTagError> for Error {
    fn from(value: CutFirstVlanTagError) -> (r: Self) {
        Self::Ethernet(EthernetError::CutFirstVlanTag(value))
    }
}

impl vstd::std_specs::convert::FromSpecImpl<CutFirstVlanTagError> for Error {
    open spec fn obeys_from_spec() -> bool {
        true
    }

    open spec fn from_spec(value: CutFirstVlanTagError) -> Self {
        Error::Ethernet(EthernetError::CutFirstVlanTag(value))
    }
}

impl From<CutBothVlanTagsError> for Error {
    fn from(value: CutBothVlanTagsError) -> (r: Self) {
        Self::Ethernet(EthernetError::CutBothVlanTags(value))
    }
}

impl vstd::std_specs::convert::FromSpecImpl<CutBothVlanTagsError> for Error {
    open spec fn obeys_from_spec() -> bool {
        true
    }

    open spec fn from_spec(value: CutBothVlanTagsError) -> Self {
        Error::Ethernet(EthernetError::CutBothVlanTags(value))
    }
}

} // verus!
