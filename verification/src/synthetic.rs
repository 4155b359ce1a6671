//! The Synthetic quota API: its request, the classification of its replies
//! and the normalization of its quota response into the usage model.

use crate::error::{classified_view, classify_spec, FetchError, FetchErrorView};
use crate::fixed::{percent_of_spec, Fixed};
use crate::kind::ProviderKind;
use crate::text::{decimal_i64, decimal_int};
use crate::time::{parse_rfc3339, rfc3339_millis, Timestamp};
use crate::usage::{
    clone_text, text_of, FetchSource, LoginMethod, ProviderIdentity, ProviderIdentityView,
    UsageSnapshot, UsageSnapshotView, UsageWindow, UsageWindowView,
};
use vstd::prelude::*;

verus! {

/// Base URL of the API.
pub const API_BASE_URL: &'static str = "https://api.synthetic.new";

/// Path of the quota endpoint.
pub const QUOTA_ENDPOINT: &'static str = "/v2/quotas";

/// Name of the environment variable that may hold the API key.
pub const API_KEY_ENV_VAR: &'static str = "SYNTHETIC_API_KEY";

/// Length of the subscription period in minutes: thirty days.
pub const PERIOD_MINUTES: u32 = 43200;

/// One quota of the response: a limit, the requests used against it and the
/// time of renewal as the API wrote it.
#[derive(Debug)]
pub struct SubscriptionInfo {
    /// Request limit per period.
    pub limit: i64,
    /// Requests used in the current period; partial requests count.
    pub requests: Fixed,
    /// When the quota renews, in RFC 3339 form.
    pub renews_at: Option<String>,
}

/// The mathematical content of a `SubscriptionInfo`.
pub struct SubscriptionInfoView {
    pub limit: i64,
    pub requests: Fixed,
    pub renews_at: Option<Seq<char>>,
}

impl View for SubscriptionInfo {
    type V = SubscriptionInfoView;

    open spec fn view(&self) -> SubscriptionInfoView {
        SubscriptionInfoView {
            limit: self.limit,
            requests: self.requests,
            renews_at: text_of(self.renews_at),
        }
    }
}

impl Clone for SubscriptionInfo {
    fn clone(&self) -> (r: Self)
        ensures
            r == *self,
    {
        SubscriptionInfo {
            limit: self.limit,
            requests: self.requests,
            renews_at: clone_text(&self.renews_at),
        }
    }
}

/// The search quota of the response.
#[derive(Debug)]
pub struct SearchInfo {
    pub hourly: SubscriptionInfo,
}

impl Clone for SearchInfo {
    fn clone(&self) -> (r: Self)
        ensures
            r == *self,
    {
        SearchInfo { hourly: self.hourly.clone() }
    }
}

/// The decoded body of a quota response.
#[derive(Debug)]
pub struct SyntheticQuotaResponse {
    pub subscription: Option<SubscriptionInfo>,
    pub search: Option<SearchInfo>,
}

/// The mathematical content of a `SyntheticQuotaResponse`.
pub struct SyntheticQuotaResponseView {
    pub subscription: Option<SubscriptionInfoView>,
    pub search: Option<SubscriptionInfoView>,
}

impl View for SyntheticQuotaResponse {
    type V = SyntheticQuotaResponseView;

    open spec fn view(&self) -> SyntheticQuotaResponseView {
        SyntheticQuotaResponseView {
            subscription: match self.subscription {
                Some(s) => Some(s@),
                None => None,
            },
            search: match self.search {
                Some(s) => Some(s.hourly@),
                None => None,
            },
        }
    }
}

impl Clone for SyntheticQuotaResponse {
    fn clone(&self) -> (r: Self)
        ensures
            r == *self,
    {
        SyntheticQuotaResponse {
            subscription: match &self.subscription {
                Some(s) => Some(s.clone()),
                None => None,
            },
            search: match &self.search {
                Some(s) => Some(s.clone()),
                None => None,
            },
        }
    }
}

/// The instant of an optional renewal text: `None` where there is no text or
/// the text is not in RFC 3339 form.
pub open spec fn renewal_instant(renews_at: Option<Seq<char>>) -> Option<Timestamp> {
    match renews_at {
        Some(text) => match rfc3339_millis(text) {
            Some(millis) => Some(Timestamp { millis }),
            None => None,
        },
        None => None,
    }
}

impl SubscriptionInfoView {
    /// Usage as a percentage of the limit; zero where the limit is not
    /// positive.
    pub open spec fn used_percent(self) -> Fixed {
        Fixed { milli: percent_of_spec(self.requests@, self.limit as int) as i64 }
    }

    /// The plan name shown for this quota.
    pub open spec fn plan_name(self) -> Seq<char> {
        decimal_int(self.limit as int) + " requests/period"@
    }

    /// The window of this quota, given the instant of its renewal.
    pub open spec fn window(self, resets_at: Option<Timestamp>) -> UsageWindowView {
        UsageWindowView {
            used_percent: self.used_percent(),
            window_minutes: Some(PERIOD_MINUTES),
            resets_at,
            reset_description: None,
        }
    }

    /// The identity that goes with this quota.
    pub open spec fn identity(self) -> ProviderIdentityView {
        ProviderIdentityView {
            provider: ProviderKind::Synthetic,
            account_email: None,
            plan_name: Some(self.plan_name()),
            login_method: Some(LoginMethod::ApiKey),
        }
    }
}

impl SyntheticQuotaResponseView {
    /// The snapshot of this response, completed at `now`, given the instant
    /// of the subscription's renewal. The search quota does not enter it.
    pub open spec fn snapshot(self, resets_at: Option<Timestamp>, now: Timestamp)
        -> UsageSnapshotView {
        match self.subscription {
            Some(sub) => UsageSnapshotView {
                primary: Some(sub.window(resets_at)),
                secondary: None,
                tertiary: None,
                search: None,
                identity: Some(sub.identity()),
                fetch_source: FetchSource::Api,
                updated_at: now,
            },
            None => UsageSnapshotView {
                primary: None,
                secondary: None,
                tertiary: None,
                search: None,
                identity: None,
                fetch_source: FetchSource::Api,
                updated_at: now,
            },
        }
    }

    /// The instant of the subscription's renewal, as far as the response
    /// names one in RFC 3339 form.
    pub open spec fn renewal(self) -> Option<Timestamp> {
        match self.subscription {
            Some(sub) => renewal_instant(sub.renews_at),
            None => None,
        }
    }
}

impl SubscriptionInfo {
    /// Usage as a percentage of the limit: `requests / limit * 100`, and
    /// exactly zero where the limit is zero or less.
    pub fn used_percent(&self) -> (r: Fixed)
        ensures
            r == self@.used_percent(),
            r@ == percent_of_spec(self.requests@, self.limit as int),
            self.limit <= 0 ==> r@ == 0,
    {
        Fixed::percent_of(self.requests, self.limit)
    }

    /// The plan name shown for this quota: the limit, then
    /// `" requests/period"`.
    pub fn plan_name(&self) -> (s: String)
        ensures
            s@ == self@.plan_name(),
    {
        let mut s = decimal_i64(self.limit);
        s.append(" requests/period");
        s
    }

    /// The instant of renewal: the renewal text read as RFC 3339. A text
    /// that is not in that form gives `None`, as a missing text does.
    pub fn resets_at(&self) -> (r: Option<Timestamp>)
        ensures
            r == renewal_instant(self@.renews_at),
    {
        match &self.renews_at {
            Some(text) => parse_rfc3339(text.as_str()),
            None => None,
        }
    }

    /// The window of this quota, given the instant of its renewal.
    pub fn to_window(&self, resets_at: Option<Timestamp>) -> (w: UsageWindow)
        ensures
            w@ == self@.window(resets_at),
    {
        UsageWindow {
            used_percent: self.used_percent(),
            window_minutes: Some(PERIOD_MINUTES),
            resets_at,
            reset_description: None,
        }
    }

    /// The identity that goes with this quota: the plan name and the login
    /// by API key.
    pub fn to_identity(&self) -> (i: ProviderIdentity)
        ensures
            i@ == self@.identity(),
    {
        let mut identity = ProviderIdentity::new(ProviderKind::Synthetic);
        identity.plan_name = Some(self.plan_name());
        identity.login_method = Some(LoginMethod::ApiKey);
        identity
    }
}

impl SyntheticQuotaResponse {
    /// The snapshot of this response, completed at `now`, with `resets_at`
    /// as the instant of the subscription's renewal.
    ///
    /// With a subscription the snapshot has a primary window and an
    /// identity; without one it has neither. The search quota does not enter
    /// the snapshot.
    pub fn snapshot_with(&self, resets_at: Option<Timestamp>, now: Timestamp) -> (s: UsageSnapshot)
        ensures
            s@ == self@.snapshot(resets_at, now),
    {
        let mut snapshot = UsageSnapshot::new(FetchSource::Api, now);
        match &self.subscription {
            Some(sub) => {
                snapshot.primary = Some(sub.to_window(resets_at));
                snapshot.identity = Some(sub.to_identity());
            },
            None => {},
        }
        snapshot
    }

    /// Normalize this response into a snapshot completed at `now`.
    ///
    /// The renewal text is read as RFC 3339; where that fails the window has
    /// no reset time and the snapshot is made all the same.
    pub fn to_snapshot_at(&self, now: Timestamp) -> (s: UsageSnapshot)
        ensures
            s@ == self@.snapshot(self@.renewal(), now),
            s@.updated_at == now,
            s@.fetch_source == FetchSource::Api,
            s@.primary is Some <==> self.subscription is Some,
    {
        let resets_at = match &self.subscription {
            Some(sub) => sub.resets_at(),
            None => None,
        };
        self.snapshot_with(resets_at, now)
    }

    /// Normalize this response into a snapshot completed now, by the system
    /// clock.
    ///
    /// Whatever the clock says, the windows, the identity and the source
    /// are those of `to_snapshot_at`: only `updated_at` comes from the
    /// clock.
    pub fn to_snapshot(&self) -> (s: UsageSnapshot)
        ensures
            exists|now: Timestamp| s@ == self@.snapshot(self@.renewal(), now),
            s@ == (UsageSnapshotView {
                updated_at: s@.updated_at,
                ..self@.snapshot(self@.renewal(), Timestamp { millis: 0 })
            }),
            s@.primary is Some <==> self.subscription is Some,
    {
        let now = Timestamp::now();
        let s = self.to_snapshot_at(now);
        assert(s@ == self@.snapshot(self@.renewal(), now));
        s
    }
}

/// What came of sending a request: no reply at all, or a reply with its
/// status and body.
#[derive(Debug)]
pub enum HttpReply {
    /// The request could not be sent or no reply arrived.
    Failed { reason: String },
    /// A reply arrived.
    Status { status: u16, body: String },
}

/// The mathematical content of an `HttpReply`.
pub enum HttpReplyView {
    Failed { reason: Seq<char> },
    Status { status: u16, body: Seq<char> },
}

impl View for HttpReply {
    type V = HttpReplyView;

    open spec fn view(&self) -> HttpReplyView {
        match self {
            HttpReply::Failed { reason } => HttpReplyView::Failed { reason: reason@ },
            HttpReply::Status { status, body } => HttpReplyView::Status {
                status: *status,
                body: body@,
            },
        }
    }
}

impl HttpReplyView {
    /// The body to decode, or the failure that the reply amounts to.
    pub open spec fn outcome(self) -> Result<Seq<char>, FetchErrorView> {
        match self {
            HttpReplyView::Failed { reason } => Err(FetchErrorView::TransportError { reason }),
            HttpReplyView::Status { status, body } => classify_spec(status, body),
        }
    }
}

/// The request that asks for the quota.
#[derive(Debug)]
pub struct QuotaRequest {
    pub url: String,
    /// Value of the `Authorization` header.
    pub authorization: String,
    /// Value of the `Content-Type` header.
    pub content_type: &'static str,
}

/// Whether an optional credential can be used: it is present and not empty.
pub open spec fn usable(credential: Option<Seq<char>>) -> bool {
    credential is Some && credential->0.len() > 0
}

/// The first of two optional credentials that can be used.
pub open spec fn first_credential(stored: Option<Seq<char>>, fallback: Option<Seq<char>>)
    -> Option<Seq<char>> {
    if usable(stored) {
        stored
    } else if usable(fallback) {
        fallback
    } else {
        None
    }
}

/// Client of the quota API.
#[derive(Debug)]
pub struct SyntheticApiClient {
    base_url: String,
}

impl Clone for SyntheticApiClient {
    fn clone(&self) -> (r: Self)
        ensures
            r == *self,
    {
        SyntheticApiClient { base_url: self.base_url.clone() }
    }
}

impl Default for SyntheticApiClient {
    fn default() -> (r: Self)
        ensures
            r.spec_base_url() == API_BASE_URL@,
    {
        SyntheticApiClient::new()
    }
}

impl SyntheticApiClient {
    /// The base URL that this client talks to.
    pub closed spec fn spec_base_url(&self) -> Seq<char> {
        self.base_url@
    }

    /// Creates a new client, for the base URL of the service.
    pub fn new() -> (r: Self)
        ensures
            r.spec_base_url() == API_BASE_URL@,
    {
        SyntheticApiClient { base_url: String::from_str(API_BASE_URL) }
    }

    /// The base URL that this client talks to.
    pub fn base_url(&self) -> (s: &str)
        ensures
            s@ == self.spec_base_url(),
    {
        self.base_url.as_str()
    }

    /// Choose the API key: the one from the credential store where it can
    /// be used, else the one from the environment. An empty value is passed
    /// over like a missing one. With no key that can be used the credential
    /// is missing.
    pub fn get_api_key(stored: Option<String>, from_env: Option<String>) -> (r: Result<
        String,
        FetchError,
    >)
        ensures
            r is Ok <==> usable(text_of(stored)) || usable(text_of(from_env)),
            r is Ok ==> Some(r->Ok_0@) == first_credential(text_of(stored), text_of(from_env)),
            r is Err ==> r->Err_0@ == FetchErrorView::CredentialMissing,
    {
        match stored {
            Some(key) => {
                if !key.as_str().is_empty() {
                    return Ok(key);
                }
            },
            None => {},
        }
        match from_env {
            Some(key) => {
                if !key.as_str().is_empty() {
                    return Ok(key);
                }
            },
            None => {},
        }
        Err(FetchError::CredentialMissing)
    }

    /// The request that asks for the quota with `api_key` as bearer token.
    pub fn quota_request(&self, api_key: &str) -> (r: QuotaRequest)
        ensures
            r.url@ == self.spec_base_url() + QUOTA_ENDPOINT@,
            r.authorization@ == "Bearer "@ + api_key@,
            r.content_type@ == "application/json"@,
    {
        let mut url = self.base_url.clone();
        url.append(QUOTA_ENDPOINT);
        let mut authorization = String::from_str("Bearer ");
        authorization.append(api_key);
        QuotaRequest { url, authorization, content_type: "application/json" }
    }

    /// Judge the reply to a quota request.
    ///
    /// A request that got no reply is a transport error. Status 401 is a
    /// rejected credential, any other status outside `200..=299` an API
    /// error with status and body. A success hands the body back, to be
    /// decoded.
    pub fn fetch_quota(&self, reply: HttpReply) -> (r: Result<String, FetchError>)
        ensures
            classified_view(r) == reply@.outcome(),
            r is Ok <==> (reply matches HttpReply::Status { status, .. } && 200 <= status < 300),
    {
        match reply {
            HttpReply::Failed { reason } => Err(FetchError::TransportError { reason }),
            HttpReply::Status { status, body } => FetchError::classify_response(status, body),
        }
    }

    /// Finish a fetch whose reply was a success: the decoded response
    /// becomes a snapshot completed at `now`, a body that could not be
    /// decoded a parse error with the decoder's reason.
    pub fn finish_fetch(decoded: Result<SyntheticQuotaResponse, String>, now: Timestamp) -> (r:
        Result<UsageSnapshot, FetchError>)
        ensures
            match decoded {
                Ok(response) => r is Ok && r->Ok_0@ == response@.snapshot(
                    response@.renewal(),
                    now,
                ),
                Err(reason) => r is Err && r->Err_0@ == (FetchErrorView::ParseError {
                    reason: reason@,
                }),
            },
    {
        match decoded {
            Ok(response) => Ok(response.to_snapshot_at(now)),
            Err(reason) => Err(FetchError::ParseError { reason }),
        }
    }
}

/// With no positive limit the used percentage is exactly zero, whatever the
/// requests: never negative and never above one hundred.
pub proof fn lemma_zero_limit_zero_percent(sub: SubscriptionInfoView)
    requires
        sub.limit <= 0,
    ensures
        sub.used_percent()@ == 0,
        sub.window(None).used_percent@ == 0,
{
}

/// Usage between nothing and the limit gives a percentage between 0 and 100.
pub proof fn lemma_percent_in_range(sub: SubscriptionInfoView)
    requires
        sub.limit > 0,
        0 <= sub.requests@ <= sub.limit * 1000,
    ensures
        0 <= sub.used_percent()@ <= 100_000,
{
    let n = sub.requests@ * 100;
    let d = sub.limit as int;
    assert(0 <= n / d <= 100_000) by (nonlinear_arith)
        requires
            0 <= n <= d * 100_000,
            d > 0,
    ;
}

} // verus!
