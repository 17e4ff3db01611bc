//! API usage and rate limits.
use crate::text::str_eq;
use crate::serde::naive_date::Instant;
use vstd::prelude::*;

verus! {

/// Rate limit tier.
#[derive(Debug, Clone, Copy, PartialEq, Eq, Hash)]
pub enum RateLimitTier {
    /// Standard tier.
    Standard,
    /// Premium tier.
    Premium,
    /// Enterprise tier.
    Enterprise,
    /// No limit (testing and development).
    Noop,
    /// A tier this client does not know.
    Unknown,
}

impl RateLimitTier {
    /// The wire name of the value.
    pub open spec fn spec_name(self) -> Seq<char> {
        match self {
            RateLimitTier::Standard => "standard"@,
            RateLimitTier::Premium => "premium"@,
            RateLimitTier::Enterprise => "enterprise"@,
            RateLimitTier::Noop => "noop"@,
            RateLimitTier::Unknown => "unknown"@,
        }
    }

    /// Whether `s` names this value.
    pub open spec fn named_by(self, s: Seq<char>) -> bool {
        s == self.spec_name()
    }

    /// The wire name, as the value displays.
    pub fn to_string(&self) -> (r: String)
        ensures
            r@ == self.spec_name(),
    {
        match self {
            RateLimitTier::Standard => "standard".to_owned(),
            RateLimitTier::Premium => "premium".to_owned(),
            RateLimitTier::Enterprise => "enterprise".to_owned(),
            RateLimitTier::Noop => "noop".to_owned(),
            RateLimitTier::Unknown => "unknown".to_owned(),
        }
    }

    /// Reads a value from its wire name.
    pub fn from_name(s: &str) -> (r: Result<RateLimitTier, ParseRateLimitTierError>)
        ensures
            r matches Ok(v) && (v.named_by(s@) || (v == RateLimitTier::Unknown && forall|w: RateLimitTier|
                #[trigger] w.named_by(s@) ==> w == RateLimitTier::Unknown)),
    {
        if str_eq(s, "standard") {
            Ok(RateLimitTier::Standard)
        } else if str_eq(s, "premium") {
            Ok(RateLimitTier::Premium)
        } else if str_eq(s, "enterprise") {
            Ok(RateLimitTier::Enterprise)
        } else if str_eq(s, "noop") {
            Ok(RateLimitTier::Noop)
        } else if str_eq(s, "unknown") {
            Ok(RateLimitTier::Unknown)
        } else {
            Ok(RateLimitTier::Unknown)
        }
    }
}

impl std::str::FromStr for RateLimitTier {
    type Err = ParseRateLimitTierError;

    fn from_str(s: &str) -> Result<RateLimitTier, ParseRateLimitTierError> {
        RateLimitTier::from_name(s)
    }
}

/// Error returned when parsing a `RateLimitTier` from a string fails.
#[derive(Debug, Clone, PartialEq, Eq)]
pub struct ParseRateLimitTierError(String);

impl ParseRateLimitTierError {
    /// The text that was refused.
    pub closed spec fn spec_text(&self) -> Seq<char> {
        self.0@
    }

    /// The text that was refused.
    pub fn text(&self) -> (r: &str)
        ensures
            r@ == self.spec_text(),
    {
        self.0.as_str()
    }

    /// The error's message: `Invalid rate limit tier: ` and the refused text.
    pub fn to_string(&self) -> (r: String)
        ensures
            r@ == "Invalid rate limit tier: "@ + self.spec_text(),
    {
        "Invalid rate limit tier: ".to_owned().concat(self.0.as_str())
    }
}

/// Authentication method.
#[derive(Debug, Clone, Copy, PartialEq, Eq, Hash)]
pub enum AuthenticationMethod {
    /// OAuth authentication.
    OAuth,
}

impl AuthenticationMethod {
    /// The wire name of the value.
    pub open spec fn spec_name(self) -> Seq<char> {
        match self {
            AuthenticationMethod::OAuth => "oauth"@,
        }
    }

    /// Whether `s` names this value.
    pub open spec fn named_by(self, s: Seq<char>) -> bool {
        s == self.spec_name()
    }

    /// The wire name, as the value displays.
    pub fn to_string(&self) -> (r: String)
        ensures
            r@ == self.spec_name(),
    {
        match self {
            AuthenticationMethod::OAuth => "oauth".to_owned(),
        }
    }

    /// Reads a value from its wire name.
    pub fn from_name(s: &str) -> (r: Result<AuthenticationMethod, ParseAuthenticationMethodError>)
        ensures
            match r {
                Ok(v) => v.named_by(s@),
                Err(e) => (forall|v: AuthenticationMethod| !#[trigger] v.named_by(s@)) && e.spec_text() == s@,
            },
    {
        if str_eq(s, "oauth") {
            Ok(AuthenticationMethod::OAuth)
        } else {
            Err(ParseAuthenticationMethodError(s.to_owned()))
        }
    }
}

impl std::str::FromStr for AuthenticationMethod {
    type Err = ParseAuthenticationMethodError;

    fn from_str(s: &str) -> Result<AuthenticationMethod, ParseAuthenticationMethodError> {
        AuthenticationMethod::from_name(s)
    }
}

/// Error returned when parsing an `AuthenticationMethod` from a string fails.
#[derive(Debug, Clone, PartialEq, Eq)]
pub struct ParseAuthenticationMethodError(String);

impl ParseAuthenticationMethodError {
    /// The text that was refused.
    pub closed spec fn spec_text(&self) -> Seq<char> {
        self.0@
    }

    /// The text that was refused.
    pub fn text(&self) -> (r: &str)
        ensures
            r@ == self.spec_text(),
    {
        self.0.as_str()
    }

    /// The error's message: `Invalid authentication method: ` and the refused text.
    pub fn to_string(&self) -> (r: String)
        ensures
            r@ == "Invalid authentication method: "@ + self.spec_text(),
    {
        "Invalid authentication method: ".to_owned().concat(self.0.as_str())
    }
}

/// Usage response under OAuth authentication.
#[derive(Debug, Clone, PartialEq, Eq)]
pub struct UsageOAuthResponse {
    /// Authentication method.
    pub authentication_method: AuthenticationMethod,
    /// Response message.
    pub message: String,
}

/// API key information.
#[derive(Debug, Clone, PartialEq, Eq)]
pub struct ApiKeyInfo {
    /// API key name.
    pub name: String,
    /// API key scopes.
    pub scopes: Vec<String>,
    /// Time of last use.
    pub last_used_at: Option<Instant>,
    /// Creation time.
    pub created_at: Instant,
}

/// Rate limit information.
#[derive(Debug, Clone, PartialEq, Eq)]
pub struct RateLimitInfo {
    /// Rate limit tier.
    pub tier: RateLimitTier,
    /// Request limit.
    pub limit: Option<i64>,
    /// Requests counted so far.
    pub current_count: i64,
    /// Requests remaining.
    pub remaining: Option<i64>,
    /// Seconds until the count resets.
    pub reset_in_seconds: i64,
    /// When the count resets.
    pub reset_at: Instant,
}

/// Usage response under API key authentication.
#[derive(Debug, Clone, PartialEq, Eq)]
pub struct UsageApiKeyResponse {
    /// API key information.
    pub api_key: ApiKeyInfo,
    /// Rate limit information.
    pub rate_limit: RateLimitInfo,
}

/// Usage response: under an API key or under OAuth.
#[derive(Debug, Clone, PartialEq, Eq)]
pub enum UsageResponse {
    /// Under API key authentication.
    ApiKey(UsageApiKeyResponse),
    /// Under OAuth authentication.
    OAuth(UsageOAuthResponse),
}

} // verus!
