//! The ways in which a fetch fails, and how each is described.

use crate::text::{append_decimal, decimal_nat};
use vstd::prelude::*;

verus! {

/// The HTTP status that means the credential was rejected.
pub const STATUS_UNAUTHORIZED: u16 = 401;

/// Why a fetch failed.
#[derive(Debug)]
pub enum FetchError {
    /// No usable credential was found in any source.
    CredentialMissing,
    /// A credential was present but the provider rejected it.
    AuthenticationFailed,
    /// Any other response outside the success range.
    ApiError { status: u16, body: String },
    /// The network or the process launch failed, or the fetch timed out.
    TransportError { reason: String },
    /// A success response that could not be understood.
    ParseError { reason: String },
}

/// The mathematical content of a `FetchError`.
pub enum FetchErrorView {
    CredentialMissing,
    AuthenticationFailed,
    ApiError { status: u16, body: Seq<char> },
    TransportError { reason: Seq<char> },
    ParseError { reason: Seq<char> },
}

/// The five kinds of failure, without their details.
#[derive(Clone, Copy, Debug, PartialEq, Eq, Structural)]
pub enum FetchErrorKind {
    CredentialMissing,
    AuthenticationFailed,
    ApiError,
    TransportError,
    ParseError,
}

impl View for FetchError {
    type V = FetchErrorView;

    open spec fn view(&self) -> FetchErrorView {
        match self {
            FetchError::CredentialMissing => FetchErrorView::CredentialMissing,
            FetchError::AuthenticationFailed => FetchErrorView::AuthenticationFailed,
            FetchError::ApiError { status, body } => FetchErrorView::ApiError {
                status: *status,
                body: body@,
            },
            FetchError::TransportError { reason } => FetchErrorView::TransportError {
                reason: reason@,
            },
            FetchError::ParseError { reason } => FetchErrorView::ParseError { reason: reason@ },
        }
    }
}

impl FetchErrorView {
    /// The kind of this failure.
    pub open spec fn kind(self) -> FetchErrorKind {
        match self {
            FetchErrorView::CredentialMissing => FetchErrorKind::CredentialMissing,
            FetchErrorView::AuthenticationFailed => FetchErrorKind::AuthenticationFailed,
            FetchErrorView::ApiError { .. } => FetchErrorKind::ApiError,
            FetchErrorView::TransportError { .. } => FetchErrorKind::TransportError,
            FetchErrorView::ParseError { .. } => FetchErrorKind::ParseError,
        }
    }

    /// The description that is shown for this failure.
    pub open spec fn description(self) -> Seq<char> {
        match self {
            FetchErrorView::CredentialMissing => "Credential missing: no API key or login found"@,
            FetchErrorView::AuthenticationFailed => "Authentication failed: credential rejected"@,
            FetchErrorView::ApiError { status, body } => "HTTP "@ + decimal_nat(status as nat)
                + ": "@ + body,
            FetchErrorView::TransportError { reason } => "Transport error: "@ + reason,
            FetchErrorView::ParseError { reason } => "Parse error: "@ + reason,
        }
    }
}

impl FetchErrorKind {
    /// Whether the user can mend this failure: by entering a credential or
    /// by logging in again.
    pub open spec fn user_actionable(self) -> bool {
        self == FetchErrorKind::CredentialMissing || self == FetchErrorKind::AuthenticationFailed
    }

    /// Whether this failure is expected to pass by itself.
    pub open spec fn transient(self) -> bool {
        self == FetchErrorKind::TransportError
    }

    /// Whether the user can mend this failure.
    pub fn is_user_actionable(self) -> (r: bool)
        ensures
            r == self.user_actionable(),
    {
        match self {
            FetchErrorKind::CredentialMissing => true,
            FetchErrorKind::AuthenticationFailed => true,
            _ => false,
        }
    }

    /// Whether this failure is expected to pass by itself.
    pub fn is_transient(self) -> (r: bool)
        ensures
            r == self.transient(),
    {
        match self {
            FetchErrorKind::TransportError => true,
            _ => false,
        }
    }
}

/// What a response with the given status and body amounts to: its body to
/// decode where the status is in the success range, else the failure.
pub open spec fn classify_spec(status: u16, body: Seq<char>) -> Result<Seq<char>, FetchErrorView> {
    if status == STATUS_UNAUTHORIZED {
        Err(FetchErrorView::AuthenticationFailed)
    } else if 200 <= status < 300 {
        Ok(body)
    } else {
        Err(FetchErrorView::ApiError { status, body })
    }
}

/// The content of a classified response.
pub open spec fn classified_view(r: Result<String, FetchError>) -> Result<
    Seq<char>,
    FetchErrorView,
> {
    match r {
        Ok(body) => Ok(body@),
        Err(e) => Err(e@),
    }
}

impl FetchError {
    /// The failure of a fetch that exceeded its time bound.
    pub fn timeout() -> (e: FetchError)
        ensures
            e@ == (FetchErrorView::TransportError { reason: "timeout"@ }),
    {
        FetchError::TransportError { reason: String::from_str("timeout") }
    }

    /// The kind of this failure.
    pub fn kind(&self) -> (k: FetchErrorKind)
        ensures
            k == self@.kind(),
    {
        match self {
            FetchError::CredentialMissing => FetchErrorKind::CredentialMissing,
            FetchError::AuthenticationFailed => FetchErrorKind::AuthenticationFailed,
            FetchError::ApiError { .. } => FetchErrorKind::ApiError,
            FetchError::TransportError { .. } => FetchErrorKind::TransportError,
            FetchError::ParseError { .. } => FetchErrorKind::ParseError,
        }
    }

    /// The description that is shown for this failure.
    pub fn describe(&self) -> (s: String)
        ensures
            s@ == self@.description(),
    {
        match self {
            FetchError::CredentialMissing => String::from_str(
                "Credential missing: no API key or login found",
            ),
            FetchError::AuthenticationFailed => String::from_str(
                "Authentication failed: credential rejected",
            ),
            FetchError::ApiError { status, body } => {
                let mut s = String::from_str("HTTP ");
                append_decimal(&mut s, *status as u64);
                s.append(": ");
                s.append(body.as_str());
                s
            },
            FetchError::TransportError { reason } => {
                let mut s = String::from_str("Transport error: ");
                s.append(reason.as_str());
                s
            },
            FetchError::ParseError { reason } => {
                let mut s = String::from_str("Parse error: ");
                s.append(reason.as_str());
                s
            },
        }
    }

    /// Classify an HTTP response by its status.
    ///
    /// Status 401 is a rejected credential. Any other status outside
    /// `200..=299` is an API error that carries the status and the body. A
    /// status in the success range hands the body back, to be decoded.
    pub fn classify_response(status: u16, body: String) -> (r: Result<String, FetchError>)
        ensures
            classified_view(r) == classify_spec(status, body@),
            r is Ok <==> 200 <= status < 300,
    {
        if status == STATUS_UNAUTHORIZED {
            Err(FetchError::AuthenticationFailed)
        } else if status < 200 || status >= 300 {
            Err(FetchError::ApiError { status, body })
        } else {
            Ok(body)
        }
    }
}

/// The first character of a description tells the kind of the failure: each
/// kind has its own.
pub proof fn lemma_description_head(e: FetchErrorView)
    ensures
        e.description().len() > 0,
        e.description()[0] == (match e.kind() {
            FetchErrorKind::CredentialMissing => 'C',
            FetchErrorKind::AuthenticationFailed => 'A',
            FetchErrorKind::ApiError => 'H',
            FetchErrorKind::TransportError => 'T',
            FetchErrorKind::ParseError => 'P',
        }),
{
    reveal_strlit("Credential missing: no API key or login found");
    reveal_strlit("Authentication failed: credential rejected");
    reveal_strlit("HTTP ");
    reveal_strlit(": ");
    reveal_strlit("Transport error: ");
    reveal_strlit("Parse error: ");
}

/// Descriptions tell the kinds of failure apart: two failures with the same
/// description are of the same kind. So "no credential", "credential
/// rejected" and an upstream problem never read alike.
pub proof fn lemma_description_tells_kind(a: FetchErrorView, b: FetchErrorView)
    requires
        a.description() == b.description(),
    ensures
        a.kind() == b.kind(),
{
    lemma_description_head(a);
    lemma_description_head(b);
}

} // verus!
