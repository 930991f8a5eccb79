//! The kinds of failure that a client can be told of.
//!
//! Every failure inside the gateway is of one of these kinds before it
//! reaches a client. A failure of the store is none of them: it is taken for a
//! miss and never reaches a client at all. A block by upstream is its own
//! kind, so that the failover is set going and the client is asked to come
//! back, whatever upstream has said.

use crate::encryption::TokenError;
use crate::gateway::{DownloadFailure, ExtractionError, Rejection, RequestError, BLOCK_STATUS};
use crate::session::SessionError;
use crate::stream::ProxyError;
use crate::vpn::VpnError;
use vstd::prelude::*;

verus! {

/// What kind of failure a client is told of.
#[derive(Clone, Copy, Debug, PartialEq, Eq, Structural)]
pub enum ErrorKind {
    /// The request lacks something, or something in it is wrong.
    BadRequest,
    /// The token or the session is past its time.
    Expired,
    /// The content network or the extractor has failed.
    UpstreamUnavailable,
    /// Upstream has blocked the gateway.
    Blocked,
    /// The extractor or the content network has not answered in time.
    Timeout,
    /// The gateway itself has failed.
    Internal,
}

/// The kind of a failure to read a token.
pub open spec fn token_kind(e: TokenError) -> ErrorKind {
    match e {
        TokenError::Expired => ErrorKind::Expired,
        _ => ErrorKind::BadRequest,
    }
}

/// The kind of a failure of a session.
pub open spec fn session_kind(e: SessionError) -> ErrorKind {
    match e {
        SessionError::SessionExpired => ErrorKind::Expired,
        SessionError::FormatNotFound => ErrorKind::BadRequest,
    }
}

/// The kind of a failure of the proxy.
pub open spec fn proxy_kind(e: ProxyError) -> ErrorKind {
    match e {
        ProxyError::BadToken(reason) => token_kind(reason),
        ProxyError::UpstreamUnavailable { status } => if status == BLOCK_STATUS {
            ErrorKind::Blocked
        } else {
            ErrorKind::UpstreamUnavailable
        },
        ProxyError::UpstreamUnreachable => ErrorKind::UpstreamUnavailable,
        _ => ErrorKind::BadRequest,
    }
}

/// The kind of a failure of a request for a source.
pub open spec fn rejection_kind(reason: Rejection) -> ErrorKind {
    match reason {
        Rejection::Extraction(ExtractionError::Forbidden) => ErrorKind::Blocked,
        Rejection::Extraction(ExtractionError::Unsupported) => ErrorKind::BadRequest,
        Rejection::Extraction(_) => ErrorKind::UpstreamUnavailable,
        Rejection::Unreadable => ErrorKind::Internal,
        Rejection::Crashed => ErrorKind::Internal,
        Rejection::TimedOut => ErrorKind::Timeout,
    }
}

/// The kind of a failure of the session gateway.
pub open spec fn download_kind(failure: DownloadFailure) -> ErrorKind {
    match failure {
        DownloadFailure::Extraction(kind) => rejection_kind(Rejection::Extraction(kind)),
        DownloadFailure::TimedOut => ErrorKind::Timeout,
        _ => ErrorKind::Internal,
    }
}

/// The kind of a failure of the failover.
pub open spec fn vpn_kind(e: VpnError) -> ErrorKind {
    match e {
        VpnError::MaxAttemptsReached => ErrorKind::Blocked,
        VpnError::RequestFailed => ErrorKind::Internal,
    }
}

impl ErrorKind {
    /// The kind of a failure to read a token.
    pub fn of_token(e: TokenError) -> (kind: ErrorKind)
        ensures
            kind == token_kind(e),
    {
        match e {
            TokenError::Expired => ErrorKind::Expired,
            _ => ErrorKind::BadRequest,
        }
    }

    /// The kind of a failure of a session.
    pub fn of_session(e: SessionError) -> (kind: ErrorKind)
        ensures
            kind == session_kind(e),
    {
        match e {
            SessionError::SessionExpired => ErrorKind::Expired,
            SessionError::FormatNotFound => ErrorKind::BadRequest,
        }
    }

    /// The kind of a failure of the proxy.
    pub fn of_proxy(e: ProxyError) -> (kind: ErrorKind)
        ensures
            kind == proxy_kind(e),
    {
        match e {
            ProxyError::BadToken(reason) => ErrorKind::of_token(reason),
            ProxyError::UpstreamUnavailable { status } => {
                if status == BLOCK_STATUS {
                    ErrorKind::Blocked
                } else {
                    ErrorKind::UpstreamUnavailable
                }
            },
            ProxyError::UpstreamUnreachable => ErrorKind::UpstreamUnavailable,
            _ => ErrorKind::BadRequest,
        }
    }

    /// The kind of a request that was turned away unseen.
    pub fn of_request(e: RequestError) -> (kind: ErrorKind)
        ensures
            kind == ErrorKind::BadRequest,
    {
        ErrorKind::BadRequest
    }

    /// The kind of a failure of a request for a source.
    pub fn of_rejection(reason: Rejection) -> (kind: ErrorKind)
        ensures
            kind == rejection_kind(reason),
    {
        match reason {
            Rejection::Extraction(ExtractionError::Forbidden) => ErrorKind::Blocked,
            Rejection::Extraction(ExtractionError::Unsupported) => ErrorKind::BadRequest,
            Rejection::Extraction(_) => ErrorKind::UpstreamUnavailable,
            Rejection::Unreadable => ErrorKind::Internal,
            Rejection::Crashed => ErrorKind::Internal,
            Rejection::TimedOut => ErrorKind::Timeout,
        }
    }

    /// The kind of a failure of the session gateway.
    pub fn of_download(failure: DownloadFailure) -> (kind: ErrorKind)
        ensures
            kind == download_kind(failure),
    {
        match failure {
            DownloadFailure::Extraction(kind) => ErrorKind::of_rejection(Rejection::Extraction(kind)),
            DownloadFailure::TimedOut => ErrorKind::Timeout,
            _ => ErrorKind::Internal,
        }
    }

    /// The kind of a failure of the failover.
    pub fn of_vpn(e: VpnError) -> (kind: ErrorKind)
        ensures
            kind == vpn_kind(e),
    {
        match e {
            VpnError::MaxAttemptsReached => ErrorKind::Blocked,
            VpnError::RequestFailed => ErrorKind::Internal,
        }
    }

    /// True when a failure of this kind is a block signal for the failover.
    pub fn is_block_signal(&self) -> (block: bool)
        ensures
            block == (*self == ErrorKind::Blocked),
    {
        match self {
            ErrorKind::Blocked => true,
            _ => false,
        }
    }

    /// A word for logs.
    pub fn as_str(&self) -> (word: &'static str)
        ensures
            word@ == (match *self {
                ErrorKind::BadRequest => "bad request"@,
                ErrorKind::Expired => "expired"@,
                ErrorKind::UpstreamUnavailable => "upstream unavailable"@,
                ErrorKind::Blocked => "blocked"@,
                ErrorKind::Timeout => "timeout"@,
                ErrorKind::Internal => "internal"@,
            }),
    {
        match self {
            ErrorKind::BadRequest => "bad request",
            ErrorKind::Expired => "expired",
            ErrorKind::UpstreamUnavailable => "upstream unavailable",
            ErrorKind::Blocked => "blocked",
            ErrorKind::Timeout => "timeout",
            ErrorKind::Internal => "internal",
        }
    }
}

/// Expired is not malformed. A token past its time and a token that cannot be
/// read are of different kinds, and so are a session that is gone and a
/// variant that a session does not have.
pub proof fn law_expired_is_told_apart()
    ensures
        token_kind(TokenError::Expired) != token_kind(TokenError::BadEncoding),
        token_kind(TokenError::Expired) != token_kind(TokenError::BadText),
        session_kind(SessionError::SessionExpired) != session_kind(SessionError::FormatNotFound),
{
}

/// A failure is a block exactly when it sets the failover going: a request for
/// a source is rejected with the failover set exactly for the kind `Blocked`.
pub proof fn law_blocks_fail_over(reason: Rejection)
    ensures
        crate::gateway::is_block(reason) <==> rejection_kind(reason) == ErrorKind::Blocked,
        rejection_kind(reason) == ErrorKind::Blocked ==> crate::gateway::rejection_status(reason)
            == 503,
{
}

/// At the session gateway too a block is answered as an outage that will
/// pass, and a deadline that passed is told apart from a fault of the gateway.
pub proof fn law_download_failures(failure: DownloadFailure)
    ensures
        download_kind(failure) == ErrorKind::Blocked <==> failure == DownloadFailure::Extraction(
            ExtractionError::Forbidden,
        ),
        download_kind(failure) == ErrorKind::Blocked ==> crate::gateway::failure_status(failure)
            == 503,
        download_kind(failure) == ErrorKind::Timeout <==> crate::gateway::failure_status(failure)
            == 504,
{
}

} // verus!
