// Domain values and signing roots, against values worked out by hand and
// against the Merkle hasher of the tree_hash crate.

use remote_signer::chain_spec::{domain_value, version_leaf};
use remote_signer::hash::{hash_pair, node_pair};
use remote_signer::{
    derive_signing_root, ChainSpec, Domain, Fork, Hash256, RemoteSignerObject, SignedContent,
};
use tree_hash::TreeHash;

fn genesis_validators_root() -> Hash256 {
    Hash256::from_low_u64_be(0xc137)
}

fn fork_at(epoch: u64) -> Fork {
    Fork { previous_version: [1; 4], current_version: [2; 4], epoch }
}

fn block(seed: u64) -> RemoteSignerObject {
    RemoteSignerObject::BeaconBlock(SignedContent {
        epoch: seed / 32,
        root: Hash256::from_low_u64_be(seed),
        json: "{}".to_string(),
    })
}

fn attestation(seed: u64) -> RemoteSignerObject {
    RemoteSignerObject::AttestationData(SignedContent {
        epoch: seed,
        root: Hash256::from_low_u64_be(seed * 3),
        json: "{}".to_string(),
    })
}

// The root of a container of two 32-byte fields, as the hasher computes it.
fn container_root(first: &[u8], second: &[u8]) -> [u8; 32] {
    let mut hasher = tree_hash::MerkleHasher::with_leaves(2);
    hasher.write(first).unwrap();
    hasher.write(second).unwrap();
    hasher.finish().unwrap().0
}

#[test]
fn hash_of_two_zero_nodes() {
    let parent = hash_pair(&[0u8; 32], &[0u8; 32]);
    assert_eq!(
        Hash256 { bytes: parent }.to_hex(),
        "0xf5a5fd42d16a20302798ef6ed309979b43003d2320d9f0e8ea9831a92759fb4b"
    );
    assert_ne!(parent, [0u8; 32]);
}

#[test]
fn hash_pair_is_ordered() {
    let left = Hash256::from_low_u64_be(1).bytes;
    let right = Hash256::from_low_u64_be(2).bytes;
    assert_ne!(hash_pair(&left, &right), hash_pair(&right, &left));
    assert_eq!(hash_pair(&left, &right), container_root(&left, &right));
    let pair = node_pair(&left, &right);
    assert_eq!(&pair[..32], &left[..]);
    assert_eq!(&pair[32..], &right[..]);
}

#[test]
fn fork_data_root_and_domain_of_genesis() {
    let root = ChainSpec::compute_fork_data_root(&[0u8; 4], &Hash256::zero());
    assert_eq!(
        Hash256 { bytes: root }.to_hex(),
        "0xf5a5fd42d16a20302798ef6ed309979b43003d2320d9f0e8ea9831a92759fb4b"
    );
    let fork = Fork { previous_version: [0; 4], current_version: [0; 4], epoch: 0 };
    let domain = ChainSpec::mainnet().get_domain(0, Domain::Deposit, &fork, &Hash256::zero());
    assert_eq!(
        domain.to_hex(),
        "0x03000000f5a5fd42d16a20302798ef6ed309979b43003d2320d9f0e8ea9831a9"
    );
}

#[test]
fn fork_data_root_matches_the_hasher() {
    let version = [2u8; 4];
    let root = ChainSpec::compute_fork_data_root(&version, &genesis_validators_root());
    let expected =
        container_root(version.tree_hash_root().as_slice(), &genesis_validators_root().bytes);
    assert_eq!(root, expected);
    assert_eq!(version_leaf(&version)[..], version.tree_hash_root().as_slice()[..]);
}

#[test]
fn domain_value_layout() {
    let mut root = [0u8; 32];
    for (i, byte) in root.iter_mut().enumerate() {
        *byte = 0xa0 + i as u8;
    }
    let value = domain_value(0x0403_0201, &root);
    assert_eq!(
        value.to_hex(),
        "0x01020304a0a1a2a3a4a5a6a7a8a9aaabacadaeafb0b1b2b3b4b5b6b7b8b9babb"
    );
}

#[test]
fn domain_constants_of_every_domain() {
    let spec = ChainSpec::mainnet();
    let domains = [
        (Domain::BeaconProposer, 0u32),
        (Domain::BeaconAttester, 1),
        (Domain::Randao, 2),
        (Domain::Deposit, 3),
        (Domain::VoluntaryExit, 4),
        (Domain::SelectionProof, 5),
        (Domain::AggregateAndProof, 6),
    ];
    for (domain, constant) in domains {
        assert_eq!(spec.get_domain_constant(domain), constant);
        let value = spec.get_domain(7, domain, &fork_at(7), &genesis_validators_root());
        assert_eq!(value.bytes[..4], constant.to_le_bytes()[..]);
        assert_eq!(
            Hash256 { bytes: value.bytes }.to_hex()[10..],
            *"cf6afe3b76acf77ab934f6413c65cd5694343bc556a48b9e486aaf1a"
        );
    }
    let other = ChainSpec { domain_randao: 0x0a0b_0c0d, ..spec };
    let value = other.get_domain(7, Domain::Randao, &fork_at(7), &genesis_validators_root());
    assert_eq!(value.bytes[..4], [0x0d, 0x0c, 0x0b, 0x0a]);
}

#[test]
fn fork_version_turns_at_the_fork_epoch() {
    let fork = fork_at(100);
    assert_eq!(fork.get_fork_version(0), [1; 4]);
    assert_eq!(fork.get_fork_version(99), [1; 4]);
    assert_eq!(fork.get_fork_version(100), [2; 4]);
    assert_eq!(fork.get_fork_version(u64::MAX), [2; 4]);

    let spec = ChainSpec::mainnet();
    let before = spec.get_domain(42, Domain::Randao, &fork, &genesis_validators_root());
    let after = spec.get_domain(100, Domain::Randao, &fork, &genesis_validators_root());
    assert_eq!(
        before.to_hex(),
        "0x0200000067ce32bd6ecefeaea5790e91cb9bbb57e1f822412151ae974678ace2"
    );
    assert_eq!(
        after.to_hex(),
        "0x02000000cf6afe3b76acf77ab934f6413c65cd5694343bc556a48b9e486aaf1a"
    );
}

#[test]
fn signing_root_of_an_epoch() {
    let spec = ChainSpec::mainnet();
    let object = RemoteSignerObject::Epoch(42);
    assert_eq!(object.object_root().bytes[..], 42u64.tree_hash_root().as_slice()[..]);

    let root =
        derive_signing_root(&fork_at(42), &genesis_validators_root(), Domain::Randao, &object, &spec);
    assert_eq!(
        root.to_hex(),
        "0xd446061de44973c15189820052acbd4a2e5f578b0e88a51191cbbdeb77d5d869"
    );

    let earlier =
        derive_signing_root(&fork_at(100), &genesis_validators_root(), Domain::Randao, &object, &spec);
    assert_eq!(
        earlier.to_hex(),
        "0x4b156e5ef20602c52b2d4539c025b7976367a9e97cf73aa6485a2181fa7c8879"
    );
}

#[test]
fn signing_root_of_a_block_and_an_attestation() {
    let spec = ChainSpec::mainnet();
    let fork = fork_at(0xc137 / 32);
    let block_root =
        derive_signing_root(&fork, &genesis_validators_root(), Domain::BeaconProposer, &block(0xc137), &spec);
    assert_eq!(
        block_root.to_hex(),
        "0xeb133f6c62ee2e28f1bb72a557ec221a28b29cbe258999428a404cfd03874d53"
    );
    let attestation_root = derive_signing_root(
        &fork,
        &genesis_validators_root(),
        Domain::BeaconAttester,
        &attestation(0xc137),
        &spec,
    );
    assert_eq!(
        attestation_root.to_hex(),
        "0x0c925643df8168ebf0fc4caa849a07b82f9ef3cf6b632250d5902e4673721dc4"
    );
}

#[test]
fn signing_root_matches_the_hasher() {
    let spec = ChainSpec::mainnet();
    let fork = fork_at(3);
    for seed in [0u64, 1, 31, 32, 0xc137, u64::MAX / 3] {
        for (object, domain) in [
            (block(seed), Domain::BeaconProposer),
            (attestation(seed), Domain::BeaconAttester),
            (RemoteSignerObject::Epoch(seed), Domain::Randao),
        ] {
            let domain_value =
                spec.get_domain(object.get_epoch(), domain, &fork, &genesis_validators_root());
            let expected = container_root(&object.object_root().bytes, &domain_value.bytes);
            let root =
                derive_signing_root(&fork, &genesis_validators_root(), domain, &object, &spec);
            assert_eq!(root.bytes, expected);
            assert_eq!(object.signing_root(&domain_value), root);
        }
    }
}

#[test]
fn signing_root_is_the_same_every_time() {
    let spec = ChainSpec::mainnet();
    let fork = fork_at(1545);
    for (object, domain) in [
        (block(0xc137), Domain::BeaconProposer),
        (attestation(0xc137), Domain::BeaconAttester),
        (RemoteSignerObject::Epoch(0xc137), Domain::Randao),
    ] {
        let first = derive_signing_root(&fork, &genesis_validators_root(), domain, &object, &spec);
        let again = derive_signing_root(&fork, &genesis_validators_root(), domain, &object.clone(), &spec);
        assert_eq!(first, again);
    }
}

#[test]
fn signing_root_tells_domains_and_objects_apart() {
    let spec = ChainSpec::mainnet();
    let fork = fork_at(0);
    let gvr = genesis_validators_root();
    let object = RemoteSignerObject::Epoch(5);
    let randao = derive_signing_root(&fork, &gvr, Domain::Randao, &object, &spec);
    let proposer = derive_signing_root(&fork, &gvr, Domain::BeaconProposer, &object, &spec);
    let next = derive_signing_root(&fork, &gvr, Domain::Randao, &RemoteSignerObject::Epoch(6), &spec);
    let elsewhere = derive_signing_root(&fork, &Hash256::zero(), Domain::Randao, &object, &spec);
    assert_ne!(randao, proposer);
    assert_ne!(randao, next);
    assert_ne!(randao, elsewhere);
}
