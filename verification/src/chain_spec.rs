//! The fork schedule and the domain values that separate signatures.

use vstd::prelude::*;

use crate::domain::Domain;
use crate::encoding::{le_bytes, le_bytes_4};
use crate::hash::{hash_pair, hash_pair_spec, Hash256};

verus! {

/// The fork schedule around the time of signing: the version before the
/// fork, the version after it, and the epoch at which the fork happens.
#[derive(Clone, Copy, Debug, PartialEq, Eq)]
pub struct Fork {
    pub previous_version: [u8; 4],
    pub current_version: [u8; 4],
    pub epoch: u64,
}

impl Fork {
    /// The version in force at `epoch`: the previous one before the fork,
    /// the current one from the fork on.
    pub open spec fn fork_version_spec(self, epoch: u64) -> Seq<u8> {
        if epoch < self.epoch {
            self.previous_version@
        } else {
            self.current_version@
        }
    }

    pub fn get_fork_version(&self, epoch: u64) -> (r: [u8; 4])
        ensures
            r@ == self.fork_version_spec(epoch),
    {
        if epoch < self.epoch {
            self.previous_version
        } else {
            self.current_version
        }
    }
}

/// The numbers a chain gives to its signature domains.
#[derive(Clone, Copy, Debug, PartialEq, Eq)]
pub struct ChainSpec {
    pub domain_beacon_proposer: u32,
    pub domain_beacon_attester: u32,
    pub domain_randao: u32,
    pub domain_deposit: u32,
    pub domain_voluntary_exit: u32,
    pub domain_selection_proof: u32,
    pub domain_aggregate_and_proof: u32,
}

/// A four-byte version as a 32-byte Merkle leaf: the version, then zeros.
pub open spec fn version_leaf_spec(version: Seq<u8>) -> Seq<u8> {
    Seq::new(32, |i: int| if i < 4 { version[i] } else { 0u8 })
}

/// The root that commits to a fork version and a chain instance.
pub open spec fn fork_data_root_spec(version: Seq<u8>, genesis_validators_root: Seq<u8>) -> Seq<u8> {
    hash_pair_spec(version_leaf_spec(version), genesis_validators_root)
}

/// The domain value: the four bytes of the domain's number, least
/// significant first, then the first 28 bytes of the fork data root.
pub open spec fn domain_value_spec(constant: u32, fork_data_root: Seq<u8>) -> Seq<u8> {
    le_bytes(constant as nat, 4) + fork_data_root.subrange(0, 28)
}

/// Pads a four-byte version to a Merkle leaf.
pub fn version_leaf(version: &[u8; 4]) -> (r: [u8; 32])
    ensures
        r@ == version_leaf_spec(version@),
{
    let mut out = [0u8; 32];
    out[0] = version[0];
    out[1] = version[1];
    out[2] = version[2];
    out[3] = version[3];
    assert(out@ =~= version_leaf_spec(version@));
    out
}

/// Joins a domain's number and a fork data root into a domain value.
pub fn domain_value(constant: u32, fork_data_root: &[u8; 32]) -> (r: Hash256)
    ensures
        r@ == domain_value_spec(constant, fork_data_root@),
{
    let head = le_bytes_4(constant);
    let mut out = [0u8; 32];
    let mut i: usize = 0;
    while i < 32
        invariant
            i <= 32,
            forall|j: int| 0 <= j < i && j < 4 ==> out@[j] == head@[j],
            forall|j: int| 4 <= j < i ==> out@[j] == fork_data_root@[j - 4],
        decreases 32 - i,
    {
        if i < 4 {
            out[i] = head[i];
        } else {
            out[i] = fork_data_root[i - 4];
        }
        i = i + 1;
    }
    assert(out@ =~= domain_value_spec(constant, fork_data_root@));
    Hash256 { bytes: out }
}

impl ChainSpec {
    /// The numbering that every public chain uses.
    pub fn mainnet() -> (r: ChainSpec)
        ensures
            r == (ChainSpec {
                domain_beacon_proposer: 0,
                domain_beacon_attester: 1,
                domain_randao: 2,
                domain_deposit: 3,
                domain_voluntary_exit: 4,
                domain_selection_proof: 5,
                domain_aggregate_and_proof: 6,
            }),
    {
        ChainSpec {
            domain_beacon_proposer: 0,
            domain_beacon_attester: 1,
            domain_randao: 2,
            domain_deposit: 3,
            domain_voluntary_exit: 4,
            domain_selection_proof: 5,
            domain_aggregate_and_proof: 6,
        }
    }

    /// The number this chain gives to `domain`.
    pub open spec fn domain_constant_spec(self, domain: Domain) -> u32 {
        match domain {
            Domain::BeaconProposer => self.domain_beacon_proposer,
            Domain::BeaconAttester => self.domain_beacon_attester,
            Domain::Randao => self.domain_randao,
            Domain::Deposit => self.domain_deposit,
            Domain::VoluntaryExit => self.domain_voluntary_exit,
            Domain::SelectionProof => self.domain_selection_proof,
            Domain::AggregateAndProof => self.domain_aggregate_and_proof,
        }
    }

    pub fn get_domain_constant(&self, domain: Domain) -> (r: u32)
        ensures
            r == self.domain_constant_spec(domain),
    {
        match domain {
            Domain::BeaconProposer => self.domain_beacon_proposer,
            Domain::BeaconAttester => self.domain_beacon_attester,
            Domain::Randao => self.domain_randao,
            Domain::Deposit => self.domain_deposit,
            Domain::VoluntaryExit => self.domain_voluntary_exit,
            Domain::SelectionProof => self.domain_selection_proof,
            Domain::AggregateAndProof => self.domain_aggregate_and_proof,
        }
    }

    /// The domain value for a signature of kind `domain` over a message of
    /// `epoch`, on the chain that `genesis_validators_root` names.
    pub open spec fn get_domain_spec(
        self,
        epoch: u64,
        domain: Domain,
        fork: Fork,
        genesis_validators_root: Seq<u8>,
    ) -> Seq<u8> {
        domain_value_spec(
            self.domain_constant_spec(domain),
            fork_data_root_spec(fork.fork_version_spec(epoch), genesis_validators_root),
        )
    }

    /// The root that commits to a fork version and a chain instance.
    pub fn compute_fork_data_root(version: &[u8; 4], genesis_validators_root: &Hash256) -> (r:
        [u8; 32])
        ensures
            r@ == fork_data_root_spec(version@, genesis_validators_root@),
    {
        let leaf = version_leaf(version);
        hash_pair(&leaf, &genesis_validators_root.bytes)
    }

    /// Computes the domain value under which a message of `epoch` is signed.
    pub fn get_domain(
        &self,
        epoch: u64,
        domain: Domain,
        fork: &Fork,
        genesis_validators_root: &Hash256,
    ) -> (r: Hash256)
        ensures
            r@ == self.get_domain_spec(epoch, domain, *fork, genesis_validators_root@),
    {
        let version = fork.get_fork_version(epoch);
        let root = Self::compute_fork_data_root(&version, genesis_validators_root);
        domain_value(self.get_domain_constant(domain), &root)
    }
}

} // verus!
