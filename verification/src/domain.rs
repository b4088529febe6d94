//! Signature domains and the names they go by.

use vstd::prelude::*;

verus! {

/// The purpose a signature is bound to.
///
/// A remote signer only serves the first three; the others are known to the
/// protocol and always turned down.
#[derive(Clone, Copy, Debug, PartialEq, Eq, Structural)]
pub enum Domain {
    BeaconProposer,
    BeaconAttester,
    Randao,
    Deposit,
    VoluntaryExit,
    SelectionProof,
    AggregateAndProof,
}

impl Domain {
    /// The name of the domain as it appears in messages.
    pub open spec fn name_spec(self) -> Seq<char> {
        match self {
            Domain::BeaconProposer => "BeaconProposer"@,
            Domain::BeaconAttester => "BeaconAttester"@,
            Domain::Randao => "Randao"@,
            Domain::Deposit => "Deposit"@,
            Domain::VoluntaryExit => "VoluntaryExit"@,
            Domain::SelectionProof => "SelectionProof"@,
            Domain::AggregateAndProof => "AggregateAndProof"@,
        }
    }

    /// Whether a remote signer serves this domain.
    pub open spec fn is_supported_spec(self) -> bool {
        self == Domain::BeaconProposer || self == Domain::BeaconAttester || self == Domain::Randao
    }

    /// The label a supported domain carries on the wire.
    pub open spec fn label_spec(self) -> Option<Seq<char>> {
        match self {
            Domain::BeaconProposer => Some("beacon_proposer"@),
            Domain::BeaconAttester => Some("beacon_attester"@),
            Domain::Randao => Some("randao"@),
            _ => None,
        }
    }

    pub fn name(self) -> (r: &'static str)
        ensures
            r@ == self.name_spec(),
    {
        match self {
            Domain::BeaconProposer => "BeaconProposer",
            Domain::BeaconAttester => "BeaconAttester",
            Domain::Randao => "Randao",
            Domain::Deposit => "Deposit",
            Domain::VoluntaryExit => "VoluntaryExit",
            Domain::SelectionProof => "SelectionProof",
            Domain::AggregateAndProof => "AggregateAndProof",
        }
    }

    pub fn is_supported(self) -> (r: bool)
        ensures
            r == self.is_supported_spec(),
    {
        match self {
            Domain::BeaconProposer | Domain::BeaconAttester | Domain::Randao => true,
            _ => false,
        }
    }

    pub fn label(self) -> (r: Option<&'static str>)
        ensures
            match r {
                Some(s) => self.label_spec() == Some(s@),
                None => self.label_spec() is None,
            },
    {
        match self {
            Domain::BeaconProposer => Some("beacon_proposer"),
            Domain::BeaconAttester => Some("beacon_attester"),
            Domain::Randao => Some("randao"),
            _ => None,
        }
    }
}

} // verus!
