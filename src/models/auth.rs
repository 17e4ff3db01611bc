//! Authentication requests and responses.
use crate::serde::duration_from_secs::Duration;
use crate::text::str_eq;
use crate::serde::naive_date::Instant;
use uuid::Uuid;
use vstd::prelude::*;

verus! {

/// Token type.
#[derive(Debug, Clone, Copy, PartialEq, Eq, Hash)]
pub enum TokenType {
    /// Bearer token.
    Bearer,
}

impl TokenType {
    /// The wire name of the value.
    pub open spec fn spec_name(self) -> Seq<char> {
        match self {
            TokenType::Bearer => "Bearer"@,
        }
    }

    /// Whether `s` names this value.
    pub open spec fn named_by(self, s: Seq<char>) -> bool {
        s == self.spec_name()
    }

    /// The wire name, as the value displays.
    pub fn to_string(&self) -> (r: String)
        ensures
            r@ == self.spec_name(),
    {
        match self {
            TokenType::Bearer => "Bearer".to_owned(),
        }
    }

    /// Reads a value from its wire name.
    pub fn from_name(s: &str) -> (r: Result<TokenType, ParseTokenTypeError>)
        ensures
            match r {
                Ok(v) => v.named_by(s@),
                Err(e) => (forall|v: TokenType| !#[trigger] v.named_by(s@)) && e.spec_text() == s@,
            },
    {
        if str_eq(s, "Bearer") {
            Ok(TokenType::Bearer)
        } else {
            Err(ParseTokenTypeError(s.to_owned()))
        }
    }
}

impl std::str::FromStr for TokenType {
    type Err = ParseTokenTypeError;

    fn from_str(s: &str) -> Result<TokenType, ParseTokenTypeError> {
        TokenType::from_name(s)
    }
}

/// Error returned when parsing a `TokenType` from a string fails.
#[derive(Debug, Clone, PartialEq, Eq)]
pub struct ParseTokenTypeError(String);

impl ParseTokenTypeError {
    /// The text that was refused.
    pub closed spec fn spec_text(&self) -> Seq<char> {
        self.0@
    }

    /// The text that was refused.
    pub fn text(&self) -> (r: &str)
        ensures
            r@ == self.spec_text(),
    {
        self.0.as_str()
    }

    /// The error's message: `Invalid token type: ` and the refused text.
    pub fn to_string(&self) -> (r: String)
        ensures
            r@ == "Invalid token type: "@ + self.spec_text(),
    {
        "Invalid token type: ".to_owned().concat(self.0.as_str())
    }
}

/// Authentication token response.
#[derive(Debug, Clone, PartialEq, Eq)]
pub struct AuthTokenResponse {
    /// Access token.
    pub access_token: String,
    /// Refresh token.
    pub refresh_token: String,
    /// Token type (Bearer).
    pub token_type: TokenType,
    /// Token lifetime.
    pub expires_in: Duration,
    /// Creation time, as a span since the Unix epoch.
    pub created_at: Duration,
}

/// Device information for authentication.
#[derive(Debug, Clone, PartialEq, Eq)]
pub struct DeviceInfo {
    /// Device identifier.
    pub device_id: String,
    /// Device name.
    pub device_name: String,
    /// Device type (such as "ios", "android", "web").
    pub device_type: String,
    /// Operating system version.
    pub os_version: String,
    /// App version.
    pub app_version: String,
}

/// User data for sign up.
#[derive(Debug, Clone, PartialEq, Eq)]
pub struct SignupUserData {
    /// Email address.
    pub email: String,
    /// Password.
    pub password: String,
    /// First name.
    pub first_name: String,
    /// Last name.
    pub last_name: String,
}

/// Device information for a token refresh.
#[derive(Debug, Clone, PartialEq, Eq)]
pub struct RefreshDeviceInfo {
    /// Device identifier.
    pub device_id: String,
}

/// User information.
#[derive(Debug, Clone, PartialEq, Eq)]
pub struct User {
    /// User identifier.
    pub id: Uuid,
    /// Email address.
    pub email: String,
    /// First name.
    pub first_name: String,
    /// Last name.
    pub last_name: String,
}

/// Sign up response.
#[derive(Debug, Clone, PartialEq, Eq)]
pub struct AuthSignupResponse {
    /// Access token.
    pub access_token: String,
    /// Refresh token.
    pub refresh_token: String,
    /// Token type (Bearer).
    pub token_type: TokenType,
    /// Token lifetime.
    pub expires_in: Duration,
    /// Creation time, as a span since the Unix epoch.
    pub created_at: Duration,
    /// User information.
    pub user: User,
}

/// Login response.
#[derive(Debug, Clone, PartialEq, Eq)]
pub struct AuthLoginResponse {
    /// Access token.
    pub access_token: String,
    /// Refresh token.
    pub refresh_token: String,
    /// Token type (Bearer).
    pub token_type: TokenType,
    /// Token lifetime.
    pub expires_in: Duration,
    /// Creation time, as a span since the Unix epoch.
    pub created_at: Duration,
    /// User information.
    pub user: User,
}

} // verus!
