//! What can go wrong when a signature is asked for.

use vstd::prelude::*;

verus! {

/// The stage of a round trip at which a request failed without a usable
/// answer from the signer.
#[derive(Clone, Copy, Debug, PartialEq, Eq, Structural)]
pub enum FailureKind {
    /// The request could not be put together.
    Builder,
    /// The signer kept sending the client elsewhere.
    Redirect,
    /// The request could not be carried out: no connection, or the exchange
    /// broke off.
    Request,
    /// The body of the answer could not be read to its end.
    Body,
    /// The signer answered with success, but the body holds no signature.
    Decode,
}

/// What the transport reports of a failed request, as plain facts.
#[derive(Clone, Copy, Debug, PartialEq, Eq, Structural)]
pub struct FailureFlags {
    pub builder: bool,
    pub redirect: bool,
    pub body: bool,
    pub decode: bool,
    pub connect: bool,
    pub timeout: bool,
}

impl FailureKind {
    /// The stage that a set of transport facts stands for. Building comes
    /// first, then redirection, decoding and body; whatever is none of
    /// these failed while the request was carried out.
    pub open spec fn classify_spec(flags: FailureFlags) -> FailureKind {
        if flags.builder {
            FailureKind::Builder
        } else if flags.redirect {
            FailureKind::Redirect
        } else if flags.decode {
            FailureKind::Decode
        } else if flags.body {
            FailureKind::Body
        } else {
            FailureKind::Request
        }
    }

    pub fn classify(flags: FailureFlags) -> (r: FailureKind)
        ensures
            r == Self::classify_spec(flags),
    {
        if flags.builder {
            FailureKind::Builder
        } else if flags.redirect {
            FailureKind::Redirect
        } else if flags.decode {
            FailureKind::Decode
        } else if flags.body {
            FailureKind::Body
        } else {
            FailureKind::Request
        }
    }
}

/// A request that failed on the way: the stage, whether the connection was
/// never made, whether time ran out, and the transport's own words.
#[derive(Clone, Debug, PartialEq, Eq)]
pub struct RequestFailure {
    pub kind: FailureKind,
    pub connect: bool,
    pub timeout: bool,
    pub message: String,
}

/// The mathematical content of a [`RequestFailure`].
pub struct RequestFailureView {
    pub kind: FailureKind,
    pub connect: bool,
    pub timeout: bool,
    pub message: Seq<char>,
}

impl View for RequestFailure {
    type V = RequestFailureView;

    open spec fn view(&self) -> RequestFailureView {
        RequestFailureView {
            kind: self.kind,
            connect: self.connect,
            timeout: self.timeout,
            message: self.message@,
        }
    }
}

impl RequestFailureView {
    /// The failure that a set of transport facts and a message stand for.
    pub open spec fn from_flags(flags: FailureFlags, message: Seq<char>) -> RequestFailureView {
        RequestFailureView {
            kind: FailureKind::classify_spec(flags),
            connect: flags.connect,
            timeout: flags.timeout,
            message,
        }
    }

    /// Whether the failure lies in the network rather than in what the
    /// signer said.
    pub open spec fn is_transport(self) -> bool {
        self.kind != FailureKind::Decode
    }

    /// Whether the request failed before a connection was made, as opposed
    /// to in mid-request.
    pub open spec fn is_connect(self) -> bool {
        self.connect
    }
}

impl RequestFailure {
    pub fn from_flags(flags: FailureFlags, message: String) -> (r: RequestFailure)
        ensures
            r@ == RequestFailureView::from_flags(flags, message@),
    {
        RequestFailure {
            kind: FailureKind::classify(flags),
            connect: flags.connect,
            timeout: flags.timeout,
            message,
        }
    }

    pub fn is_transport(&self) -> (r: bool)
        ensures
            r == self@.is_transport(),
    {
        match self.kind {
            FailureKind::Decode => false,
            _ => true,
        }
    }

    pub fn is_connect(&self) -> (r: bool)
        ensures
            r == self@.is_connect(),
    {
        self.connect
    }
}

/// The errors of a signing call.
#[derive(Clone, Debug, PartialEq, Eq)]
pub enum Error {
    /// The HTTP client raised an error.
    Reqwest(RequestFailure),
    /// The signer turned the request down and said why.
    ServerMessage(String),
    /// The signer turned the request down and its reason could not be read.
    StatusCode(u16),
    /// The signer's address cannot take path segments. It should look
    /// something like `http://127.0.0.1:5052`.
    InvalidUrl(String),
    /// A parameter of the call is not acceptable.
    InvalidParameter(String),
}

/// The mathematical content of an [`Error`].
pub enum ErrorView {
    Reqwest(RequestFailureView),
    ServerMessage(Seq<char>),
    StatusCode(u16),
    InvalidUrl(Seq<char>),
    InvalidParameter(Seq<char>),
}

impl View for Error {
    type V = ErrorView;

    open spec fn view(&self) -> ErrorView {
        match self {
            Error::Reqwest(failure) => ErrorView::Reqwest(failure@),
            Error::ServerMessage(message) => ErrorView::ServerMessage(message@),
            Error::StatusCode(status) => ErrorView::StatusCode(*status),
            Error::InvalidUrl(address) => ErrorView::InvalidUrl(address@),
            Error::InvalidParameter(message) => ErrorView::InvalidParameter(message@),
        }
    }
}

/// The mathematical content of a result that carries text.
pub open spec fn text_result_view(r: Result<String, Error>) -> Result<Seq<char>, ErrorView> {
    match r {
        Ok(text) => Ok(text@),
        Err(e) => Err(e@),
    }
}

impl ErrorView {
    /// Whether the error tells of a network failure, as opposed to a
    /// rejection by the signer or a bad parameter.
    pub open spec fn is_transport(self) -> bool {
        self matches ErrorView::Reqwest(failure) && failure.is_transport()
    }
}

impl Error {
    /// The error for a request that failed on the way.
    pub fn from_failure(flags: FailureFlags, message: String) -> (r: Error)
        ensures
            r@ == ErrorView::Reqwest(RequestFailureView::from_flags(flags, message@)),
    {
        Error::Reqwest(RequestFailure::from_flags(flags, message))
    }

    pub fn is_transport(&self) -> (r: bool)
        ensures
            r == self@.is_transport(),
    {
        match self {
            Error::Reqwest(failure) => failure.is_transport(),
            _ => false,
        }
    }
}

/// A failure that the transport reports is never taken for an answer of the
/// signer: unless the transport itself says that it could not decode, the
/// error is a transport error, and it tells a failed connection from a
/// failure in mid-request as the transport did.
pub proof fn transport_failure_stays_distinct(flags: FailureFlags, message: Seq<char>)
    ensures
        ({
            let e = ErrorView::Reqwest(RequestFailureView::from_flags(flags, message));
            &&& !(e is ServerMessage) && !(e is StatusCode)
            &&& e.is_transport() <==> flags.builder || flags.redirect || !flags.decode
            &&& e->Reqwest_0.is_connect() == flags.connect
        }),
{
}

} // verus!
