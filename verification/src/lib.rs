//! Client-side protocol engine for a remote BLS signer.
//!
//! A validator that keeps its keys in a remote signer asks it for signatures
//! over consensus objects. This crate decides what is sent and what comes
//! back means: it checks that the requested signature domain fits the object,
//! derives the signing root, frames the JSON request body, builds the target
//! address, and interprets the signer's answer. It performs no network
//! traffic of its own; the caller carries the bytes.

pub mod chain_spec;
pub mod domain;
pub mod encoding;
pub mod error;
pub mod hash;
pub mod http_client;
pub mod object;
pub mod request;
pub mod response;

pub use chain_spec::{ChainSpec, Fork};
pub use domain::Domain;
pub use error::{Error, ErrorView, FailureFlags, FailureKind, RequestFailure, RequestFailureView};
pub use hash::Hash256;
pub use http_client::{RemoteSignerHttpClient, SignPost, SignPostView};
pub use object::{derive_signing_root, validate, ObjectView, RemoteSignerObject, SignedContent};
pub use request::{SignRequest, SignRequestView};
pub use response::{interpret_response, parse_response};
