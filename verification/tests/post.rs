// The address a request is posted to, and how failures on the way and
// rejections by the signer are told apart.

use remote_signer::{
    parse_response, ChainSpec, Domain, Error, FailureFlags, FailureKind, Fork, Hash256,
    RemoteSignerHttpClient, RemoteSignerObject, SignPost, SignedContent,
};
use std::time::Duration;

const PUBLIC_KEY_1: &str =
    "b7354252aa5bce27ab9537fd0158515935f3c3861419e1b4b6c8219b5dbd15fcf907bddf275442f3e32f904f79807a2a";

fn block_post(test_client: &RemoteSignerHttpClient) -> Result<SignPost, Error> {
    let block = SignedContent {
        epoch: 0xc137 / 32,
        root: Hash256::from_low_u64_be(0xc137),
        json: "{\"slot\":\"49463\"}".to_string(),
    };
    test_client.sign_request(
        PUBLIC_KEY_1,
        Domain::BeaconProposer,
        &RemoteSignerObject::BeaconBlock(block),
        &Fork { previous_version: [1; 4], current_version: [2; 4], epoch: 0xc137 / 32 },
        &Hash256::from_low_u64_be(0xc137),
        &ChainSpec::mainnet(),
    )
}

// Carries a post to the signer over a blocking connection and hands the
// outcome to the library, as a caller of the library would.
fn carry(post: &SignPost) -> Result<String, Error> {
    let transport = reqwest::blocking::Client::builder()
        .timeout(Duration::from_secs(12))
        .build()
        .unwrap();
    let sent = transport
        .post(post.url.as_str())
        .header("content-type", "application/json")
        .body(post.body())
        .send();
    match sent {
        Ok(response) => {
            let status = response.status().as_u16();
            let body = response.bytes().unwrap();
            parse_response(&body, status)
        }
        Err(e) => Err(Error::from_failure(
            FailureFlags {
                builder: e.is_builder(),
                redirect: e.is_redirect(),
                body: e.is_body(),
                decode: e.is_decode(),
                connect: e.is_connect(),
                timeout: e.is_timeout(),
            },
            e.to_string(),
        )),
    }
}

#[test]
fn unreachable_server_is_a_transport_error() {
    // Nothing answers on port 1, if the port can be reached at all.
    let test_client = RemoteSignerHttpClient::from_components(
        "http://127.0.0.1:1".to_string(),
        reqwest::Client::new(),
    );
    let post = block_post(&test_client).unwrap();
    let error = carry(&post).unwrap_err();
    assert!(error.is_transport());
    match error {
        Error::Reqwest(failure) => {
            assert_eq!(failure.kind, FailureKind::Request);
            assert!(failure.connect);
            assert!(failure.is_connect());
            assert!(!failure.timeout);
            assert!(failure.message.contains("error sending request"));
        }
        e => panic!("{:?}", e),
    }
}

#[test]
fn server_error() {
    // The signer cannot read its key storage and says so with a 500.
    let signature = parse_response(b"{\"error\":\"Storage error: PermissionDenied\"}", 500);
    match signature.unwrap_err() {
        Error::ServerMessage(message) => assert_eq!(message, "Storage error: PermissionDenied"),
        e => panic!("{:?}", e),
    }
}

#[test]
fn invalid_url() {
    let run_testcase = |u: &str| -> Result<String, String> {
        let url: reqwest::Url = u.parse().map_err(|e| format!("[ParseError] {:?}", e))?;

        let reqwest_client = reqwest::ClientBuilder::new()
            .timeout(Duration::from_secs(12))
            .build()
            .unwrap();

        let test_client = RemoteSignerHttpClient::from_components(url.to_string(), reqwest_client);

        let post = block_post(&test_client).map_err(|e| match e {
            Error::InvalidUrl(message) => format!("[InvalidUrl] {:?}", message),
            _ => format!("[HERMAN] {:?}", e),
        })?;

        carry(&post).map_err(|e| match e {
            Error::Reqwest(failure) => match failure.kind {
                FailureKind::Builder => format!("[Reqwest - Builder] {:?}", post.url),
                FailureKind::Request => format!("[Reqwest - Request] {:?}", post.url),
                _ => format!("[Reqwest] {:?}", failure),
            },
            _ => format!("[HERMAN] {:?}", e),
        })
    };

    let testcase = |u: &str, msg: &str| assert_eq!(run_testcase(u).unwrap_err(), msg);

    // These do not parse as a URL: no client is ever made of them.
    testcase("", "[ParseError] RelativeUrlWithoutBase");
    testcase("/4/8/15/16/23/42", "[ParseError] RelativeUrlWithoutBase");
    testcase("localhost", "[ParseError] RelativeUrlWithoutBase");
    testcase(":", "[ParseError] RelativeUrlWithoutBase");
    testcase("0.0:0", "[ParseError] RelativeUrlWithoutBase");
    testcase(":aa", "[ParseError] RelativeUrlWithoutBase");
    testcase("0:", "[ParseError] RelativeUrlWithoutBase");
    testcase("ftp://", "[ParseError] EmptyHost");
    testcase("http://", "[ParseError] EmptyHost");
    testcase("http://127.0.0.1:abcd", "[ParseError] InvalidPort");
    testcase("http://280.0.0.1", "[ParseError] InvalidIpv4Address");

    // The client is made, but its address takes no path segments.
    testcase("localhost:abcd", "[InvalidUrl] \"localhost:abcd\"");
    testcase("localhost:", "[InvalidUrl] \"localhost:\"");

    // The address is extended, but no request can be built for it.
    testcase(
        "unix:/run/foo.socket",
        &format!("[Reqwest - Builder] \"unix:/run/foo.socket/sign/{}\"", PUBLIC_KEY_1),
    );
    // The request is built, but cannot be carried out.
    testcase(
        "http://127.0.0.1:0",
        &format!("[Reqwest - Request] \"http://127.0.0.1:0/sign/{}\"", PUBLIC_KEY_1),
    );
}

#[test]
fn text_that_is_no_url_is_an_invalid_address() {
    let test_client =
        RemoteSignerHttpClient::from_components("localhost".to_string(), reqwest::Client::new());
    match block_post(&test_client).unwrap_err() {
        Error::InvalidUrl(address) => assert_eq!(address, "localhost"),
        e => panic!("{:?}", e),
    }
    assert_eq!(test_client.sign_url(PUBLIC_KEY_1), None);
}

#[test]
fn address_gets_two_segments() {
    let cases = [
        ("http://127.0.0.1:9000", "http://127.0.0.1:9000/sign/"),
        ("http://127.0.0.1:9000/", "http://127.0.0.1:9000/sign/"),
        ("http://signer.example/api", "http://signer.example/api/sign/"),
        ("https://signer.example/api/?x=1", "https://signer.example/api//sign/"),
    ];
    for (server, prefix) in cases {
        let test_client =
            RemoteSignerHttpClient::from_components(server.to_string(), reqwest::Client::new());
        let post = block_post(&test_client).unwrap();
        if server.contains('?') {
            assert_eq!(post.url, format!("{}{}?x=1", prefix, PUBLIC_KEY_1));
        } else {
            assert_eq!(post.url, format!("{}{}", prefix, PUBLIC_KEY_1));
        }
        assert_eq!(test_client.sign_url(PUBLIC_KEY_1), Some(post.url.clone()));
        assert_eq!(test_client.server(), server);
    }
}

#[test]
fn key_never_reaches_query_or_body() {
    let test_client = RemoteSignerHttpClient::from_components(
        "http://127.0.0.1:9000".to_string(),
        reqwest::Client::new(),
    );
    let url = test_client.sign_url("a?b=c#d e").unwrap();
    assert_eq!(url, "http://127.0.0.1:9000/sign/a%3Fb=c%23d%20e");
    let post = block_post(&test_client).unwrap();
    assert!(!post.body().contains(PUBLIC_KEY_1));
    assert_eq!(post.request.public_key(), PUBLIC_KEY_1);
}

#[test]
fn failure_kinds_follow_the_transport() {
    let none = FailureFlags {
        builder: false,
        redirect: false,
        body: false,
        decode: false,
        connect: false,
        timeout: false,
    };
    assert_eq!(FailureKind::classify(none), FailureKind::Request);
    assert_eq!(FailureKind::classify(FailureFlags { builder: true, ..none }), FailureKind::Builder);
    assert_eq!(FailureKind::classify(FailureFlags { redirect: true, ..none }), FailureKind::Redirect);
    assert_eq!(FailureKind::classify(FailureFlags { body: true, ..none }), FailureKind::Body);
    assert_eq!(FailureKind::classify(FailureFlags { decode: true, ..none }), FailureKind::Decode);
    assert_eq!(
        FailureKind::classify(FailureFlags { connect: true, timeout: true, ..none }),
        FailureKind::Request
    );
    assert_eq!(
        FailureKind::classify(FailureFlags { builder: true, decode: true, body: true, ..none }),
        FailureKind::Builder
    );
    assert_eq!(
        FailureKind::classify(FailureFlags { decode: true, body: true, ..none }),
        FailureKind::Decode
    );

    let timed_out = Error::from_failure(FailureFlags { timeout: true, ..none }, "slow".to_string());
    assert!(timed_out.is_transport());
    match timed_out {
        Error::Reqwest(failure) => {
            assert!(failure.timeout);
            assert!(!failure.connect);
            assert_eq!(failure.message, "slow");
        }
        e => panic!("{:?}", e),
    }
    assert!(!Error::ServerMessage("no".to_string()).is_transport());
    assert!(!Error::StatusCode(500).is_transport());
    assert!(!Error::InvalidUrl("x".to_string()).is_transport());
    assert!(!Error::InvalidParameter("x".to_string()).is_transport());
}
