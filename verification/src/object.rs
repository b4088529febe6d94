//! The objects a remote signer signs, the domain each one belongs to, and
//! the signing root that is derived for it.

use vstd::prelude::*;
use vstd::string::StringExecFns;

use crate::chain_spec::{ChainSpec, Fork};
use crate::domain::Domain;
use crate::encoding::le_bytes;
use crate::error::{text_result_view, Error, ErrorView};
use crate::hash::{hash_pair, hash_pair_spec, Hash256};

verus! {

/// What is known of a block or an attestation once its own type has hashed
/// and serialized it.
#[derive(Clone, Debug, PartialEq, Eq)]
pub struct SignedContent {
    /// The epoch the object belongs to; it selects the fork version.
    pub epoch: u64,
    /// The Merkle root of the object's canonical content.
    pub root: Hash256,
    /// The object as JSON, as it travels in the request.
    pub json: String,
}

/// An object that a remote signer can be asked to sign.
#[derive(Clone, Debug, PartialEq, Eq)]
pub enum RemoteSignerObject {
    /// A block proposal.
    BeaconBlock(SignedContent),
    /// The data of an attestation.
    AttestationData(SignedContent),
    /// An epoch, signed as a randao reveal. It has no further content.
    Epoch(u64),
}

/// The mathematical content of a [`RemoteSignerObject`].
pub enum ObjectView {
    BeaconBlock { epoch: u64, root: Seq<u8>, json: Seq<char> },
    AttestationData { epoch: u64, root: Seq<u8>, json: Seq<char> },
    Epoch(u64),
}

impl View for RemoteSignerObject {
    type V = ObjectView;

    open spec fn view(&self) -> ObjectView {
        match self {
            RemoteSignerObject::BeaconBlock(c) => ObjectView::BeaconBlock {
                epoch: c.epoch,
                root: c.root@,
                json: c.json@,
            },
            RemoteSignerObject::AttestationData(c) => ObjectView::AttestationData {
                epoch: c.epoch,
                root: c.root@,
                json: c.json@,
            },
            RemoteSignerObject::Epoch(e) => ObjectView::Epoch(*e),
        }
    }
}

impl ObjectView {
    /// The name of the object's kind, as it appears in messages.
    pub open spec fn kind_name(self) -> Seq<char> {
        match self {
            ObjectView::BeaconBlock { .. } => "BeaconBlock"@,
            ObjectView::AttestationData { .. } => "AttestationData"@,
            ObjectView::Epoch(_) => "Epoch"@,
        }
    }

    /// The one domain under which the object may be signed.
    pub open spec fn required_domain(self) -> Domain {
        match self {
            ObjectView::BeaconBlock { .. } => Domain::BeaconProposer,
            ObjectView::AttestationData { .. } => Domain::BeaconAttester,
            ObjectView::Epoch(_) => Domain::Randao,
        }
    }

    /// The epoch the object belongs to.
    pub open spec fn epoch(self) -> u64 {
        match self {
            ObjectView::BeaconBlock { epoch, .. } => epoch,
            ObjectView::AttestationData { epoch, .. } => epoch,
            ObjectView::Epoch(e) => e,
        }
    }

    /// The Merkle root of the object's content. An epoch is its own
    /// content: the number in 32 bytes, least significant first.
    pub open spec fn object_root(self) -> Seq<u8> {
        match self {
            ObjectView::BeaconBlock { root, .. } => root,
            ObjectView::AttestationData { root, .. } => root,
            ObjectView::Epoch(e) => le_bytes(e as nat, 32),
        }
    }

    /// The payload that travels in the request: the object's JSON, or
    /// nothing for an epoch.
    pub open spec fn payload(self) -> Option<Seq<char>> {
        match self {
            ObjectView::BeaconBlock { json, .. } => Some(json),
            ObjectView::AttestationData { json, .. } => Some(json),
            ObjectView::Epoch(_) => None,
        }
    }

    /// The epoch member of the request: present for an epoch, which has no
    /// payload to carry it.
    pub open spec fn epoch_member(self) -> Option<u64> {
        match self {
            ObjectView::Epoch(e) => Some(e),
            _ => None,
        }
    }

    /// The root to be signed: the object's root and the domain value hashed
    /// as the two fields of one container.
    pub open spec fn signing_root(self, domain_value: Seq<u8>) -> Seq<u8> {
        hash_pair_spec(self.object_root(), domain_value)
    }
}

/// The message that turns down a domain which does not fit the object.
pub open spec fn mismatch_message(object: ObjectView, requested: Domain) -> Seq<char> {
    "Domain mismatch for the "@ + object.kind_name() + " object. Expected "@
        + object.required_domain().name_spec() + ", got "@ + requested.name_spec()
}

/// The message that turns down a domain which no remote signer serves.
pub open spec fn unsupported_message(requested: Domain) -> Seq<char> {
    "Unsupported BLS Domain: "@ + requested.name_spec()
}

/// The check of one object against a requested domain: the wire label of
/// the domain if it is the object's own, the mismatch otherwise.
pub open spec fn bls_domain_str_spec(object: ObjectView, requested: Domain) -> Result<
    Seq<char>,
    ErrorView,
> {
    if requested == object.required_domain() {
        Ok(requested.label_spec()->0)
    } else {
        Err(ErrorView::InvalidParameter(mismatch_message(object, requested)))
    }
}

/// The full check of a requested domain: it must be one that remote signers
/// serve, and it must be the object's own.
pub open spec fn validate_spec(requested: Domain, object: ObjectView) -> Result<
    Seq<char>,
    ErrorView,
> {
    if !requested.is_supported_spec() {
        Err(ErrorView::InvalidParameter(unsupported_message(requested)))
    } else {
        bls_domain_str_spec(object, requested)
    }
}

/// The signing root of `object` under `domain`, on the chain and at the
/// fork that the other arguments describe.
pub open spec fn derive_signing_root_spec(
    fork: Fork,
    genesis_validators_root: Seq<u8>,
    domain: Domain,
    object: ObjectView,
    spec: ChainSpec,
) -> Seq<u8> {
    object.signing_root(spec.get_domain_spec(object.epoch(), domain, fork, genesis_validators_root))
}

impl RemoteSignerObject {
    pub fn kind_name(&self) -> (r: &'static str)
        ensures
            r@ == self@.kind_name(),
    {
        match self {
            RemoteSignerObject::BeaconBlock(_) => "BeaconBlock",
            RemoteSignerObject::AttestationData(_) => "AttestationData",
            RemoteSignerObject::Epoch(_) => "Epoch",
        }
    }

    pub fn required_domain(&self) -> (r: Domain)
        ensures
            r == self@.required_domain(),
    {
        match self {
            RemoteSignerObject::BeaconBlock(_) => Domain::BeaconProposer,
            RemoteSignerObject::AttestationData(_) => Domain::BeaconAttester,
            RemoteSignerObject::Epoch(_) => Domain::Randao,
        }
    }

    /// The label under which the object's own domain goes on the wire.
    pub fn label(&self) -> (r: &'static str)
        ensures
            self@.required_domain().label_spec() == Some(r@),
    {
        match self {
            RemoteSignerObject::BeaconBlock(_) => "beacon_proposer",
            RemoteSignerObject::AttestationData(_) => "beacon_attester",
            RemoteSignerObject::Epoch(_) => "randao",
        }
    }

    pub fn get_epoch(&self) -> (r: u64)
        ensures
            r == self@.epoch(),
    {
        match self {
            RemoteSignerObject::BeaconBlock(c) => c.epoch,
            RemoteSignerObject::AttestationData(c) => c.epoch,
            RemoteSignerObject::Epoch(e) => *e,
        }
    }

    pub fn object_root(&self) -> (r: Hash256)
        ensures
            r@ == self@.object_root(),
    {
        match self {
            RemoteSignerObject::BeaconBlock(c) => c.root,
            RemoteSignerObject::AttestationData(c) => c.root,
            RemoteSignerObject::Epoch(e) => Hash256::from_u64_le(*e),
        }
    }

    pub fn payload(&self) -> (r: Option<&str>)
        ensures
            match r {
                Some(json) => self@.payload() == Some(json@),
                None => self@.payload() is None,
            },
    {
        match self {
            RemoteSignerObject::BeaconBlock(c) => Some(c.json.as_str()),
            RemoteSignerObject::AttestationData(c) => Some(c.json.as_str()),
            RemoteSignerObject::Epoch(_) => None,
        }
    }

    pub fn epoch_member(&self) -> (r: Option<u64>)
        ensures
            r == self@.epoch_member(),
    {
        match self {
            RemoteSignerObject::Epoch(e) => Some(*e),
            _ => None,
        }
    }

    /// Folds a domain value into the object's root.
    pub fn signing_root(&self, domain_value: &Hash256) -> (r: Hash256)
        ensures
            r@ == self@.signing_root(domain_value@),
    {
        let root = self.object_root();
        Hash256 { bytes: hash_pair(&root.bytes, &domain_value.bytes) }
    }

    /// Checks the object against a requested domain and gives the domain's
    /// wire label, or says which object met which wrong domain.
    pub fn get_bls_domain_str(&self, domain: Domain) -> (r: Result<String, Error>)
        ensures
            text_result_view(r) == bls_domain_str_spec(self@, domain),
    {
        let required = self.required_domain();
        if domain == required {
            Ok(String::from_str(self.label()))
        } else {
            let mut message = String::from_str("Domain mismatch for the ");
            message.append(self.kind_name());
            message.append(" object. Expected ");
            message.append(required.name());
            message.append(", got ");
            message.append(domain.name());
            Err(Error::InvalidParameter(message))
        }
    }
}

/// Checks a requested domain against the object to be signed. On success
/// the result is the label that names the domain on the wire.
pub fn validate(requested: Domain, object: &RemoteSignerObject) -> (r: Result<String, Error>)
    ensures
        text_result_view(r) == validate_spec(requested, object@),
{
    if !requested.is_supported() {
        let mut message = String::from_str("Unsupported BLS Domain: ");
        message.append(requested.name());
        Err(Error::InvalidParameter(message))
    } else {
        object.get_bls_domain_str(requested)
    }
}

/// Derives the signing root: the domain value is computed from the fork in
/// force at the object's epoch, the chain instance and the domain's number,
/// and then folded into the object's root.
pub fn derive_signing_root(
    fork: &Fork,
    genesis_validators_root: &Hash256,
    domain: Domain,
    object: &RemoteSignerObject,
    spec: &ChainSpec,
) -> (r: Hash256)
    ensures
        r@ == derive_signing_root_spec(*fork, genesis_validators_root@, domain, object@, *spec),
{
    let domain_value = spec.get_domain(object.get_epoch(), domain, fork, genesis_validators_root);
    object.signing_root(&domain_value)
}

/// A domain that signers serve, asked for an object of another kind, is
/// turned down with a message that names the object's kind, the domain it
/// calls for, and the domain that was asked for.
pub proof fn mismatched_domain_is_rejected(requested: Domain, object: ObjectView)
    requires
        requested.is_supported_spec(),
        requested != object.required_domain(),
    ensures
        validate_spec(requested, object) == Err::<Seq<char>, ErrorView>(
            ErrorView::InvalidParameter(
                "Domain mismatch for the "@ + object.kind_name() + " object. Expected "@
                    + object.required_domain().name_spec() + ", got "@ + requested.name_spec(),
            ),
        ),
{
}

/// A domain that signers do not serve is turned down as unsupported, by
/// name, whatever the object.
pub proof fn unsupported_domain_is_rejected(requested: Domain, object: ObjectView)
    requires
        !requested.is_supported_spec(),
    ensures
        validate_spec(requested, object) == Err::<Seq<char>, ErrorView>(
            ErrorView::InvalidParameter("Unsupported BLS Domain: "@ + requested.name_spec()),
        ),
{
}

/// The check passes for exactly one domain per object, the object's own,
/// and then gives that domain's wire label.
pub proof fn own_domain_alone_is_accepted(requested: Domain, object: ObjectView)
    ensures
        validate_spec(requested, object) is Ok <==> requested == object.required_domain(),
        requested == object.required_domain() ==> validate_spec(requested, object) == Ok::<
            Seq<char>,
            ErrorView,
        >(requested.label_spec()->0) && requested.label_spec() is Some,
{
}

/// The signing root is a function of the fork, the chain instance, the
/// domain, the object and the chain's numbering: two derivations from the
/// same inputs give the same root.
pub proof fn signing_root_is_deterministic(
    fork: Fork,
    genesis_validators_root: Seq<u8>,
    domain: Domain,
    object: ObjectView,
    spec: ChainSpec,
    first: Hash256,
    second: Hash256,
)
    requires
        first@ == derive_signing_root_spec(fork, genesis_validators_root, domain, object, spec),
        second@ == derive_signing_root_spec(fork, genesis_validators_root, domain, object, spec),
    ensures
        first == second,
{
    assert(first.bytes@ == second.bytes@);
    assert(first.bytes =~= second.bytes);
}

} // verus!
