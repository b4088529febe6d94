//! The request that crosses the wire, and its JSON form.

use vstd::prelude::*;
use vstd::string::StringExecFns;

use crate::chain_spec::{ChainSpec, Fork};
use crate::domain::Domain;
use crate::encoding::{decimal_spec, push_decimal};
use crate::error::{Error, ErrorView};
use crate::hash::{prefixed_hex_spec, push_prefixed_hex, Hash256};
use crate::object::{
    derive_signing_root, derive_signing_root_spec, validate, validate_spec, ObjectView,
    RemoteSignerObject,
};

verus! {

/// A request for one signature. The key goes into the address; everything
/// else goes into the body.
///
/// A value of this type has passed the checks: its key is not empty, its
/// domain is one that signers serve, and it carries a payload exactly when
/// the domain is not the randao one, an epoch exactly when it is.
#[derive(Debug, PartialEq, Eq)]
pub struct SignRequest {
    public_key: String,
    bls_domain: Domain,
    data: Option<String>,
    fork: Fork,
    epoch: Option<u64>,
    genesis_validators_root: Hash256,
    signing_root: Hash256,
}

/// The mathematical content of a [`SignRequest`].
pub struct SignRequestView {
    pub public_key: Seq<char>,
    pub bls_domain: Domain,
    pub data: Option<Seq<char>>,
    pub fork: Fork,
    pub epoch: Option<u64>,
    pub genesis_validators_root: Seq<u8>,
    pub signing_root: Seq<u8>,
}

/// The fork as a JSON object.
pub open spec fn fork_json_spec(fork: Fork) -> Seq<char> {
    "{\"previous_version\":\""@ + prefixed_hex_spec(fork.previous_version@)
        + "\",\"current_version\":\""@ + prefixed_hex_spec(fork.current_version@)
        + "\",\"epoch\":"@ + decimal_spec(fork.epoch as nat) + "}"@
}

/// The payload member of the body: left out altogether where there is no
/// payload.
pub open spec fn data_member_spec(data: Option<Seq<char>>) -> Seq<char> {
    match data {
        Some(json) => ",\"data\":"@ + json,
        None => Seq::empty(),
    }
}

/// The epoch member of the body: left out where there is no epoch.
pub open spec fn epoch_member_spec(epoch: Option<u64>) -> Seq<char> {
    match epoch {
        Some(e) => ",\"epoch\":"@ + decimal_spec(e as nat),
        None => Seq::empty(),
    }
}

impl SignRequestView {
    /// What holds of every request.
    pub open spec fn well_formed(self) -> bool {
        &&& self.public_key.len() > 0
        &&& self.bls_domain.is_supported_spec()
        &&& (self.data is None <==> self.bls_domain == Domain::Randao)
        &&& (self.epoch is Some <==> self.bls_domain == Domain::Randao)
    }

    /// The body of the request as JSON text.
    pub open spec fn json_spec(self) -> Seq<char> {
        "{\"bls_domain\":\""@ + self.bls_domain.label_spec()->0 + "\""@ + data_member_spec(
            self.data,
        ) + ",\"fork\":"@ + fork_json_spec(self.fork) + epoch_member_spec(self.epoch)
            + ",\"genesis_validators_root\":\""@ + prefixed_hex_spec(self.genesis_validators_root)
            + "\",\"signingRoot\":\""@ + prefixed_hex_spec(self.signing_root) + "\"}"@
    }
}

/// The message that turns down an empty key.
pub open spec fn empty_key_message() -> Seq<char> {
    "Empty parameter public_key"@
}

/// The request that the arguments call for, or the reason why there is
/// none: an empty key first, then a domain that is not served, then a
/// domain that is not the object's own.
pub open spec fn build_request_spec(
    public_key: Seq<char>,
    bls_domain: Domain,
    data: ObjectView,
    fork: Fork,
    genesis_validators_root: Seq<u8>,
    spec: ChainSpec,
) -> Result<SignRequestView, ErrorView> {
    if public_key.len() == 0 {
        Err(ErrorView::InvalidParameter(empty_key_message()))
    } else {
        match validate_spec(bls_domain, data) {
            Err(e) => Err(e),
            Ok(_) => Ok(
                SignRequestView {
                    public_key,
                    bls_domain,
                    data: data.payload(),
                    fork,
                    epoch: data.epoch_member(),
                    genesis_validators_root,
                    signing_root: derive_signing_root_spec(
                        fork,
                        genesis_validators_root,
                        bls_domain,
                        data,
                        spec,
                    ),
                },
            ),
        }
    }
}

/// The mathematical content of a result that carries a request.
pub open spec fn request_result_view(r: Result<SignRequest, Error>) -> Result<
    SignRequestView,
    ErrorView,
> {
    match r {
        Ok(request) => Ok(request@),
        Err(e) => Err(e@),
    }
}

/// Appends the fork as a JSON object to `out`.
pub fn push_fork_json(out: &mut String, fork: &Fork)
    ensures
        final(out)@ == old(out)@ + fork_json_spec(*fork),
{
    out.append("{\"previous_version\":\"");
    push_prefixed_hex(out, fork.previous_version.as_slice());
    out.append("\",\"current_version\":\"");
    push_prefixed_hex(out, fork.current_version.as_slice());
    out.append("\",\"epoch\":");
    push_decimal(out, fork.epoch);
    out.append("}");
    assert(out@ =~= old(out)@ + fork_json_spec(*fork));
}

impl View for SignRequest {
    type V = SignRequestView;

    closed spec fn view(&self) -> SignRequestView {
        SignRequestView {
            public_key: self.public_key@,
            bls_domain: self.bls_domain,
            data: match self.data {
                Some(json) => Some(json@),
                None => None,
            },
            fork: self.fork,
            epoch: self.epoch,
            genesis_validators_root: self.genesis_validators_root@,
            signing_root: self.signing_root@,
        }
    }
}

impl SignRequest {
    #[verifier::type_invariant]
    spec fn inv(self) -> bool {
        self@.well_formed()
    }

    /// Checks the arguments, derives the signing root and puts the request
    /// together.
    pub fn new(
        public_key: &str,
        bls_domain: Domain,
        data: &RemoteSignerObject,
        fork: &Fork,
        genesis_validators_root: &Hash256,
        spec: &ChainSpec,
    ) -> (r: Result<SignRequest, Error>)
        ensures
            request_result_view(r) == build_request_spec(
                public_key@,
                bls_domain,
                data@,
                *fork,
                genesis_validators_root@,
                *spec,
            ),
            r matches Ok(request) ==> request@.well_formed(),
    {
        if public_key.is_empty() {
            return Err(Error::InvalidParameter(String::from_str("Empty parameter public_key")));
        }
        match validate(bls_domain, data) {
            Err(e) => Err(e),
            Ok(_) => {
                let signing_root = derive_signing_root(
                    fork,
                    genesis_validators_root,
                    bls_domain,
                    data,
                    spec,
                );
                let payload = match data.payload() {
                    Some(json) => Some(String::from_str(json)),
                    None => None,
                };
                Ok(
                    SignRequest {
                        public_key: String::from_str(public_key),
                        bls_domain,
                        data: payload,
                        fork: *fork,
                        epoch: data.epoch_member(),
                        genesis_validators_root: *genesis_validators_root,
                        signing_root,
                    },
                )
            },
        }
    }

    pub fn public_key(&self) -> (r: &str)
        ensures
            r@ == self@.public_key,
    {
        self.public_key.as_str()
    }

    pub fn bls_domain(&self) -> (r: Domain)
        ensures
            r == self@.bls_domain,
    {
        self.bls_domain
    }

    pub fn data(&self) -> (r: Option<&str>)
        ensures
            match r {
                Some(json) => self@.data == Some(json@),
                None => self@.data is None,
            },
    {
        match &self.data {
            Some(json) => Some(json.as_str()),
            None => None,
        }
    }

    pub fn fork(&self) -> (r: Fork)
        ensures
            r == self@.fork,
    {
        self.fork
    }

    pub fn epoch(&self) -> (r: Option<u64>)
        ensures
            r == self@.epoch,
    {
        self.epoch
    }

    pub fn genesis_validators_root(&self) -> (r: Hash256)
        ensures
            r@ == self@.genesis_validators_root,
    {
        self.genesis_validators_root
    }

    pub fn signing_root(&self) -> (r: Hash256)
        ensures
            r@ == self@.signing_root,
    {
        self.signing_root
    }

    /// The body of the request as JSON text.
    pub fn to_json(&self) -> (r: String)
        ensures
            r@ == self@.json_spec(),
            self@.well_formed(),
    {
        proof {
            use_type_invariant(self);
        }
        let mut out = String::from_str("{\"bls_domain\":\"");
        match self.bls_domain.label() {
            Some(label) => {
                out.append(label);
            },
            None => {},
        }
        out.append("\"");
        match &self.data {
            Some(json) => {
                out.append(",\"data\":");
                out.append(json.as_str());
            },
            None => {},
        }
        assert(out@ =~= "{\"bls_domain\":\""@ + self@.bls_domain.label_spec()->0 + "\""@
            + data_member_spec(self@.data));
        out.append(",\"fork\":");
        push_fork_json(&mut out, &self.fork);
        match self.epoch {
            Some(e) => {
                let ghost before = out@;
                out.append(",\"epoch\":");
                push_decimal(&mut out, e);
                assert(out@ =~= before + epoch_member_spec(self@.epoch));
            },
            None => {
                assert(out@ =~= out@ + epoch_member_spec(self@.epoch));
            },
        }
        out.append(",\"genesis_validators_root\":\"");
        push_prefixed_hex(&mut out, self.genesis_validators_root.bytes.as_slice());
        out.append("\",\"signingRoot\":\"");
        push_prefixed_hex(&mut out, self.signing_root.bytes.as_slice());
        out.append("\"}");
        out
    }
}

/// Whatever request is built, it is well formed: it carries a payload
/// exactly when the object is a block or an attestation, and an epoch
/// exactly when the object is an epoch.
pub proof fn built_request_is_well_formed(
    public_key: Seq<char>,
    bls_domain: Domain,
    data: ObjectView,
    fork: Fork,
    genesis_validators_root: Seq<u8>,
    spec: ChainSpec,
)
    requires
        build_request_spec(public_key, bls_domain, data, fork, genesis_validators_root, spec)
            is Ok,
    ensures
        ({
            let request = build_request_spec(
                public_key,
                bls_domain,
                data,
                fork,
                genesis_validators_root,
                spec,
            )->Ok_0;
            &&& request.well_formed()
            &&& bls_domain == data.required_domain()
            &&& (request.data is None <==> data is Epoch)
            &&& (request.epoch is Some <==> data is Epoch)
        }),
{
}

/// The key is no part of the body: two requests that differ in nothing but
/// the key have the same body.
pub proof fn body_leaves_the_key_out(request: SignRequestView, other_key: Seq<char>)
    ensures
        (SignRequestView { public_key: other_key, ..request }).json_spec()
            == request.json_spec(),
{
}

/// The body of a randao request has no payload member at all, not even an
/// empty one; the body of any other request has one, right after the label.
pub proof fn payload_member_follows_domain(request: SignRequestView)
    requires
        request.well_formed(),
    ensures
        request.bls_domain == Domain::Randao ==> request.json_spec()
            == "{\"bls_domain\":\""@ + "randao"@ + "\""@ + ",\"fork\":"@ + fork_json_spec(
            request.fork,
        ) + ",\"epoch\":"@ + decimal_spec(request.epoch->0 as nat)
            + ",\"genesis_validators_root\":\""@ + prefixed_hex_spec(
            request.genesis_validators_root,
        ) + "\",\"signingRoot\":\""@ + prefixed_hex_spec(request.signing_root) + "\"}"@,
        request.bls_domain != Domain::Randao ==> request.json_spec()
            == "{\"bls_domain\":\""@ + request.bls_domain.label_spec()->0 + "\""@
            + ",\"data\":"@ + request.data->0 + ",\"fork\":"@ + fork_json_spec(request.fork)
            + ",\"genesis_validators_root\":\""@ + prefixed_hex_spec(
            request.genesis_validators_root,
        ) + "\",\"signingRoot\":\""@ + prefixed_hex_spec(request.signing_root) + "\"}"@,
{
    if request.bls_domain == Domain::Randao {
        assert(data_member_spec(request.data) =~= Seq::<char>::empty());
        assert("{\"bls_domain\":\""@ + "randao"@ + "\""@ + data_member_spec(request.data)
            =~= "{\"bls_domain\":\""@ + "randao"@ + "\""@);
        assert("{\"bls_domain\":\""@ + "randao"@ + "\""@ + ",\"fork\":"@ + fork_json_spec(
            request.fork,
        ) + epoch_member_spec(request.epoch) =~= "{\"bls_domain\":\""@ + "randao"@ + "\""@
            + ",\"fork\":"@ + fork_json_spec(request.fork) + ",\"epoch\":"@ + decimal_spec(
            request.epoch->0 as nat,
        ));
    } else {
        assert(epoch_member_spec(request.epoch) =~= Seq::<char>::empty());
        let head = "{\"bls_domain\":\""@ + request.bls_domain.label_spec()->0 + "\""@;
        assert(head + data_member_spec(request.data) =~= head + ",\"data\":"@
            + request.data->0);
        let middle = head + ",\"data\":"@ + request.data->0 + ",\"fork\":"@ + fork_json_spec(
            request.fork,
        );
        assert(middle + epoch_member_spec(request.epoch) =~= middle);
    }
}

} // verus!
