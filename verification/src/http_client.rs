//! The client: where the signer lives, and what a signing call sends there.

use vstd::prelude::*;
use vstd::string::StringExecFns;
use vstd::utf8::encode_utf8;

use crate::chain_spec::{ChainSpec, Fork};
use crate::domain::Domain;
use crate::error::{Error, ErrorView};
use crate::hash::Hash256;
use crate::object::{mismatch_message, unsupported_message, ObjectView, RemoteSignerObject};
use crate::request::{
    build_request_spec, empty_key_message, SignRequest, SignRequestView,
};

verus! {

/// The HTTP client of `reqwest`: a handle that is kept and handed on, never
/// looked into.
#[verifier::external_type_specification]
#[verifier::external_body]
pub struct ExClient(reqwest::Client);

/// The longest address and the longest key, in bytes, that a call takes.
/// The URL type counts positions in 32 bits; with both parts this short, an
/// address extended by an escaped key stays far below that.
pub const MAX_TEXT_BYTES: usize = 0x0100_0000;

/// The number of bytes that `text` takes as UTF-8.
pub open spec fn byte_len(text: Seq<char>) -> nat {
    encode_utf8(text).len()
}

/// The address that results when `base` is parsed as a URL and the two
/// segments are appended to its path, each escaped as the `url` crate
/// escapes a path segment. There is none where `base` is not a URL or is one
/// that cannot be a base.
pub uninterp spec fn url_with_path_segments(
    base: Seq<char>,
    first: Seq<char>,
    second: Seq<char>,
) -> Option<Seq<char>>;

/// Parses `base` with `reqwest::Url::parse`, appends the two segments with
/// `Url::path_segments_mut` and `PathSegmentsMut::push`, and takes the text
/// of the result.
///
/// Trusted: the result is that text, or nothing where either step gives an
/// error, and depends on the three arguments alone. The lengths are bounded
/// because the URL type fails on a text beyond 32 bits of length.
#[verifier::external_body]
pub(crate) fn push_path_segments(base: &str, first: &str, second: &str) -> (r: Option<String>)
    requires
        byte_len(base@) <= MAX_TEXT_BYTES,
        byte_len(first@) <= MAX_TEXT_BYTES,
        byte_len(second@) <= MAX_TEXT_BYTES,
    ensures
        match r {
            Some(url) => url_with_path_segments(base@, first@, second@) == Some(url@),
            None => url_with_path_segments(base@, first@, second@) is None,
        },
{
    let mut url = reqwest::Url::parse(base).ok()?;
    url.path_segments_mut().ok()?.push(first).push(second);
    Some(url.into())
}

/// What a signing call sends: the address to post to and the request whose
/// JSON form is the body.
#[derive(Debug, PartialEq, Eq)]
pub struct SignPost {
    pub url: String,
    pub request: SignRequest,
}

/// The mathematical content of a [`SignPost`].
pub struct SignPostView {
    pub url: Seq<char>,
    pub request: SignRequestView,
}

impl View for SignPost {
    type V = SignPostView;

    open spec fn view(&self) -> SignPostView {
        SignPostView { url: self.url@, request: self.request@ }
    }
}

impl SignPost {
    /// The body to post.
    pub fn body(&self) -> (r: String)
        ensures
            r@ == self@.request.json_spec(),
            self@.request.well_formed(),
    {
        self.request.to_json()
    }
}

/// The mathematical content of a result that carries a post.
pub open spec fn post_result_view(r: Result<SignPost, Error>) -> Result<SignPostView, ErrorView> {
    match r {
        Ok(post) => Ok(post@),
        Err(e) => Err(e@),
    }
}

/// The first path segment of every signing address.
pub open spec fn sign_segment() -> Seq<char> {
    "sign"@
}

/// What a signing call sends, given the address that the extension of the
/// server's address came to, if it came to one.
///
/// An empty key is turned down first, then a server address that takes no
/// path segments, then a domain that is not served or not the object's own.
pub open spec fn sign_post_spec(
    server: Seq<char>,
    url: Option<Seq<char>>,
    public_key: Seq<char>,
    bls_domain: Domain,
    data: ObjectView,
    fork: Fork,
    genesis_validators_root: Seq<u8>,
    spec: ChainSpec,
) -> Result<SignPostView, ErrorView> {
    if public_key.len() == 0 {
        Err(ErrorView::InvalidParameter(empty_key_message()))
    } else {
        match url {
            None => Err(ErrorView::InvalidUrl(server)),
            Some(url) => match build_request_spec(
                public_key,
                bls_domain,
                data,
                fork,
                genesis_validators_root,
                spec,
            ) {
                Err(e) => Err(e),
                Ok(request) => Ok(SignPostView { url, request }),
            },
        }
    }
}

/// What a signing call to the signer at `server` sends.
pub open spec fn sign_request_spec(
    server: Seq<char>,
    public_key: Seq<char>,
    bls_domain: Domain,
    data: ObjectView,
    fork: Fork,
    genesis_validators_root: Seq<u8>,
    spec: ChainSpec,
) -> Result<SignPostView, ErrorView> {
    sign_post_spec(
        server,
        url_with_path_segments(server, sign_segment(), public_key),
        public_key,
        bls_domain,
        data,
        fork,
        genesis_validators_root,
        spec,
    )
}

/// Puts together what a signing call sends, from the extended address, if
/// there is one, and the arguments of the call.
pub fn sign_post(
    server: &str,
    url: Option<String>,
    public_key: &str,
    bls_domain: Domain,
    data: &RemoteSignerObject,
    fork: &Fork,
    genesis_validators_root: &Hash256,
    spec: &ChainSpec,
) -> (r: Result<SignPost, Error>)
    ensures
        post_result_view(r) == sign_post_spec(
            server@,
            match url {
                Some(text) => Some(text@),
                None => None,
            },
            public_key@,
            bls_domain,
            data@,
            *fork,
            genesis_validators_root@,
            *spec,
        ),
{
    if public_key.is_empty() {
        return Err(Error::InvalidParameter(String::from_str("Empty parameter public_key")));
    }
    match url {
        None => Err(Error::InvalidUrl(String::from_str(server))),
        Some(url) => match SignRequest::new(
            public_key,
            bls_domain,
            data,
            fork,
            genesis_validators_root,
            spec,
        ) {
            Err(e) => Err(e),
            Ok(request) => Ok(SignPost { url, request }),
        },
    }
}

/// A client of one remote signer: the signer's base address and the HTTP
/// handle that requests to it go through. Neither changes after
/// construction.
pub struct RemoteSignerHttpClient {
    client: reqwest::Client,
    server: String,
}

impl RemoteSignerHttpClient {
    #[verifier::type_invariant]
    spec fn inv(self) -> bool {
        byte_len(self.server@) <= MAX_TEXT_BYTES
    }

    /// The signer's base address.
    pub closed spec fn server_spec(&self) -> Seq<char> {
        self.server@
    }

    /// The HTTP handle that requests go through.
    pub closed spec fn client_spec(&self) -> reqwest::Client {
        self.client
    }

    /// Makes a client of the signer at `server` that sends through `client`.
    pub fn from_components(server: String, client: reqwest::Client) -> (r: Self)
        requires
            byte_len(server@) <= MAX_TEXT_BYTES,
        ensures
            r.server_spec() == server@,
            r.client_spec() == client,
    {
        Self { client, server }
    }

    pub fn server(&self) -> (r: &str)
        ensures
            r@ == self.server_spec(),
            byte_len(r@) <= MAX_TEXT_BYTES,
    {
        proof {
            use_type_invariant(self);
        }
        self.server.as_str()
    }

    /// The HTTP handle, for whoever carries the request.
    pub fn client(&self) -> (r: &reqwest::Client)
        ensures
            *r == self.client_spec(),
    {
        &self.client
    }

    /// The address that a request for a signature by `public_key` is posted
    /// to: the server's address with the segments `sign` and the key.
    pub fn sign_url(&self, public_key: &str) -> (r: Option<String>)
        requires
            byte_len(public_key@) <= MAX_TEXT_BYTES,
        ensures
            match r {
                Some(url) => url_with_path_segments(
                    self.server_spec(),
                    sign_segment(),
                    public_key@,
                ) == Some(url@),
                None => url_with_path_segments(self.server_spec(), sign_segment(), public_key@)
                    is None,
            },
    {
        proof {
            use_type_invariant(self);
            sign_segment_is_short();
        }
        push_path_segments(self.server.as_str(), "sign", public_key)
    }

    /// Everything a signing call does before the network is touched: the
    /// checks of key, address and domain, the signing root, and the request.
    ///
    /// * `public_key` goes into the address and names the key to sign with.
    /// * `bls_domain` is the domain asked for; it must be the one of `data`.
    /// * `data` is the object to sign.
    /// * `fork`, `genesis_validators_root` and `spec` determine the domain
    ///   value that the signing root is derived with.
    pub fn sign_request(
        &self,
        public_key: &str,
        bls_domain: Domain,
        data: &RemoteSignerObject,
        fork: &Fork,
        genesis_validators_root: &Hash256,
        spec: &ChainSpec,
    ) -> (r: Result<SignPost, Error>)
        requires
            byte_len(public_key@) <= MAX_TEXT_BYTES,
        ensures
            post_result_view(r) == sign_request_spec(
                self.server_spec(),
                public_key@,
                bls_domain,
                data@,
                *fork,
                genesis_validators_root@,
                *spec,
            ),
    {
        let url = self.sign_url(public_key);
        sign_post(
            self.server(),
            url,
            public_key,
            bls_domain,
            data,
            fork,
            genesis_validators_root,
            spec,
        )
    }
}

/// The fixed segment is four bytes long.
proof fn sign_segment_is_short()
    ensures
        byte_len(sign_segment()) <= MAX_TEXT_BYTES,
{
    reveal_strlit("sign");
    let s = sign_segment();
    assert(s.len() == 4);
    reveal_with_fuel(encode_utf8, 5);
    assert(encode_utf8(s).len() <= 16);
}

/// An empty key is turned down before anything else is looked at: whatever
/// the server's address, the domain and the object, the call fails with the
/// same message, and nothing is there to be sent.
pub proof fn empty_key_is_rejected_first(
    server: Seq<char>,
    bls_domain: Domain,
    data: ObjectView,
    fork: Fork,
    genesis_validators_root: Seq<u8>,
    spec: ChainSpec,
)
    ensures
        sign_request_spec(
            server,
            Seq::<char>::empty(),
            bls_domain,
            data,
            fork,
            genesis_validators_root,
            spec,
        ) == Err::<SignPostView, ErrorView>(
            ErrorView::InvalidParameter("Empty parameter public_key"@),
        ),
{
}

/// Once the key is not empty and the server's address takes the two
/// segments, a domain that fails the check fails the call, with the error
/// of the check: unsupported by name for a domain that is not served,
/// whatever the object, and a mismatch that names the object's kind and
/// both domains for a served domain that is not the object's own.
pub proof fn bad_domain_fails_the_call(
    server: Seq<char>,
    public_key: Seq<char>,
    bls_domain: Domain,
    data: ObjectView,
    fork: Fork,
    genesis_validators_root: Seq<u8>,
    spec: ChainSpec,
)
    requires
        public_key.len() > 0,
        url_with_path_segments(server, sign_segment(), public_key) is Some,
        bls_domain != data.required_domain(),
    ensures
        !bls_domain.is_supported_spec() ==> sign_request_spec(
            server,
            public_key,
            bls_domain,
            data,
            fork,
            genesis_validators_root,
            spec,
        ) == Err::<SignPostView, ErrorView>(
            ErrorView::InvalidParameter(unsupported_message(bls_domain)),
        ),
        bls_domain.is_supported_spec() ==> sign_request_spec(
            server,
            public_key,
            bls_domain,
            data,
            fork,
            genesis_validators_root,
            spec,
        ) == Err::<SignPostView, ErrorView>(
            ErrorView::InvalidParameter(mismatch_message(data, bls_domain)),
        ),
{
}

/// A call is answered with something to send exactly when the key is not
/// empty, the server's address takes the two segments, and the domain is
/// the object's own. What is sent then goes to the extended address and
/// carries the key as given.
pub proof fn request_is_sent_exactly_when_valid(
    server: Seq<char>,
    public_key: Seq<char>,
    bls_domain: Domain,
    data: ObjectView,
    fork: Fork,
    genesis_validators_root: Seq<u8>,
    spec: ChainSpec,
)
    ensures
        ({
            let outcome = sign_request_spec(
                server,
                public_key,
                bls_domain,
                data,
                fork,
                genesis_validators_root,
                spec,
            );
            let url = url_with_path_segments(server, sign_segment(), public_key);
            &&& outcome is Ok <==> public_key.len() > 0 && url is Some && bls_domain
                == data.required_domain()
            &&& outcome matches Ok(post) ==> post.url == url->0 && post.request.public_key
                == public_key && post.request.well_formed()
        }),
{
}

} // verus!
