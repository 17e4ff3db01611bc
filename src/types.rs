//! Credentials and identifiers for the API.
use uuid::Uuid;
use vstd::prelude::*;

verus! {

#[verifier::external_type_specification]
#[verifier::external_body]
pub struct ExUuid(uuid::Uuid);

#[verifier::external_type_specification]
#[verifier::external_body]
pub struct ExUuidError(uuid::Error);

/// Relies on `Clone` for `uuid::Uuid`, a `Copy` type: the clone is the value.
pub assume_specification[ <uuid::Uuid as Clone>::clone ](u: &uuid::Uuid) -> (r: uuid::Uuid)
    ensures
        r == *u,
;

/// Whether `uuid` reads a text as a UUID.
pub uninterp spec fn uuid_accepts(s: Seq<char>) -> bool;

pub open spec fn is_hex_digit(c: char) -> bool {
    ('0' <= c && c <= '9') || ('a' <= c && c <= 'f') || ('A' <= c && c <= 'F')
}

/// The hyphenated form: 36 characters, `-` at 8, 13, 18 and 23, hex digits
/// everywhere else.
pub open spec fn is_hyphenated_uuid_text(s: Seq<char>) -> bool {
    &&& s.len() == 36
    &&& forall|i: int|
        0 <= i < 36 ==> if i == 8 || i == 13 || i == 18 || i == 23 {
            #[trigger] s[i] == '-'
        } else {
            is_hex_digit(s[i])
        }
}

/// Relies on `uuid::Uuid::parse_str`: whether a text is accepted depends on
/// the text alone, and the hyphenated form (parser.rs, `parse_hyphenated`)
/// is accepted.
#[verifier::external_body]
fn parse_uuid(s: &str) -> (r: Result<Uuid, uuid::Error>)
    ensures
        r is Ok <==> uuid_accepts(s@),
        is_hyphenated_uuid_text(s@) ==> r is Ok,
{
    Uuid::parse_str(s)
}

/// Relies on `Display` for `uuid::Uuid`: the hyphenated form, 36 characters.
#[verifier::external_body]
fn uuid_text(u: &Uuid) -> (r: String)
    ensures
        r@.len() == 36,
{
    u.to_string()
}

/// Account identifier.
#[derive(Debug, Clone, Copy, PartialEq, Eq, Hash)]
pub struct AccountId(Uuid);

impl AccountId {
    pub closed spec fn spec_uuid(&self) -> Uuid {
        self.0
    }

    pub fn new(value: Uuid) -> (r: AccountId)
        ensures
            r.spec_uuid() == value,
    {
        AccountId(value)
    }

    /// Reads an identifier from its text.
    pub fn parse(value: &str) -> (r: Result<AccountId, uuid::Error>)
        ensures
            r is Ok <==> uuid_accepts(value@),
            is_hyphenated_uuid_text(value@) ==> r is Ok,
    {
        match parse_uuid(value) {
            Ok(u) => Ok(AccountId(u)),
            Err(e) => Err(e),
        }
    }

    pub fn as_uuid(&self) -> (r: &Uuid)
        ensures
            *r == self.spec_uuid(),
    {
        &self.0
    }

    /// The hyphenated text of the identifier.
    pub fn to_string(&self) -> (r: String)
        ensures
            r@.len() == 36,
    {
        uuid_text(&self.0)
    }
}

/// Category identifier.
#[derive(Debug, Clone, Copy, PartialEq, Eq, Hash)]
pub struct CategoryId(Uuid);

impl CategoryId {
    pub closed spec fn spec_uuid(&self) -> Uuid {
        self.0
    }

    pub fn new(value: Uuid) -> (r: CategoryId)
        ensures
            r.spec_uuid() == value,
    {
        CategoryId(value)
    }

    /// Reads an identifier from its text.
    pub fn parse(value: &str) -> (r: Result<CategoryId, uuid::Error>)
        ensures
            r is Ok <==> uuid_accepts(value@),
            is_hyphenated_uuid_text(value@) ==> r is Ok,
    {
        match parse_uuid(value) {
            Ok(u) => Ok(CategoryId(u)),
            Err(e) => Err(e),
        }
    }

    pub fn as_uuid(&self) -> (r: &Uuid)
        ensures
            *r == self.spec_uuid(),
    {
        &self.0
    }

    /// The hyphenated text of the identifier.
    pub fn to_string(&self) -> (r: String)
        ensures
            r@.len() == 36,
    {
        uuid_text(&self.0)
    }
}

/// Merchant identifier.
#[derive(Debug, Clone, Copy, PartialEq, Eq, Hash)]
pub struct MerchantId(Uuid);

impl MerchantId {
    pub closed spec fn spec_uuid(&self) -> Uuid {
        self.0
    }

    pub fn new(value: Uuid) -> (r: MerchantId)
        ensures
            r.spec_uuid() == value,
    {
        MerchantId(value)
    }

    /// Reads an identifier from its text.
    pub fn parse(value: &str) -> (r: Result<MerchantId, uuid::Error>)
        ensures
            r is Ok <==> uuid_accepts(value@),
            is_hyphenated_uuid_text(value@) ==> r is Ok,
    {
        match parse_uuid(value) {
            Ok(u) => Ok(MerchantId(u)),
            Err(e) => Err(e),
        }
    }

    pub fn as_uuid(&self) -> (r: &Uuid)
        ensures
            *r == self.spec_uuid(),
    {
        &self.0
    }

    /// The hyphenated text of the identifier.
    pub fn to_string(&self) -> (r: String)
        ensures
            r@.len() == 36,
    {
        uuid_text(&self.0)
    }
}

/// Tag identifier.
#[derive(Debug, Clone, Copy, PartialEq, Eq, Hash)]
pub struct TagId(Uuid);

impl TagId {
    pub closed spec fn spec_uuid(&self) -> Uuid {
        self.0
    }

    pub fn new(value: Uuid) -> (r: TagId)
        ensures
            r.spec_uuid() == value,
    {
        TagId(value)
    }

    /// Reads an identifier from its text.
    pub fn parse(value: &str) -> (r: Result<TagId, uuid::Error>)
        ensures
            r is Ok <==> uuid_accepts(value@),
            is_hyphenated_uuid_text(value@) ==> r is Ok,
    {
        match parse_uuid(value) {
            Ok(u) => Ok(TagId(u)),
            Err(e) => Err(e),
        }
    }

    pub fn as_uuid(&self) -> (r: &Uuid)
        ensures
            *r == self.spec_uuid(),
    {
        &self.0
    }

    /// The hyphenated text of the identifier.
    pub fn to_string(&self) -> (r: String)
        ensures
            r@.len() == 36,
    {
        uuid_text(&self.0)
    }
}

/// Transaction identifier.
#[derive(Debug, Clone, Copy, PartialEq, Eq, Hash)]
pub struct TransactionId(Uuid);

impl TransactionId {
    pub closed spec fn spec_uuid(&self) -> Uuid {
        self.0
    }

    pub fn new(value: Uuid) -> (r: TransactionId)
        ensures
            r.spec_uuid() == value,
    {
        TransactionId(value)
    }

    /// Reads an identifier from its text.
    pub fn parse(value: &str) -> (r: Result<TransactionId, uuid::Error>)
        ensures
            r is Ok <==> uuid_accepts(value@),
            is_hyphenated_uuid_text(value@) ==> r is Ok,
    {
        match parse_uuid(value) {
            Ok(u) => Ok(TransactionId(u)),
            Err(e) => Err(e),
        }
    }

    pub fn as_uuid(&self) -> (r: &Uuid)
        ensures
            *r == self.spec_uuid(),
    {
        &self.0
    }

    /// The hyphenated text of the identifier.
    pub fn to_string(&self) -> (r: String)
        ensures
            r@.len() == 36,
    {
        uuid_text(&self.0)
    }
}

/// Bearer token for authentication (a JWT).
#[derive(Debug, Clone, PartialEq, Eq, Hash)]
pub struct BearerToken(String);

impl BearerToken {
    pub closed spec fn spec_text(&self) -> Seq<char> {
        self.0@
    }

    pub fn new(value: &str) -> (r: BearerToken)
        ensures
            r.spec_text() == value@,
    {
        BearerToken(value.to_owned())
    }

    pub fn as_str(&self) -> (r: &str)
        ensures
            r@ == self.spec_text(),
    {
        self.0.as_str()
    }

    /// The token text, as its display form.
    pub fn to_string(&self) -> (r: String)
        ensures
            r@ == self.spec_text(),
    {
        self.0.clone()
    }
}

/// API key for authentication through the `X-Api-Key` header.
#[derive(Debug, Clone, PartialEq, Eq, Hash)]
pub struct ApiKey(String);

impl ApiKey {
    pub closed spec fn spec_text(&self) -> Seq<char> {
        self.0@
    }

    pub fn new(value: &str) -> (r: ApiKey)
        ensures
            r.spec_text() == value@,
    {
        ApiKey(value.to_owned())
    }

    pub fn as_str(&self) -> (r: &str)
        ensures
            r@ == self.spec_text(),
    {
        self.0.as_str()
    }

    /// The key text, as its display form.
    pub fn to_string(&self) -> (r: String)
        ensures
            r@ == self.spec_text(),
    {
        self.0.clone()
    }
}

/// How a request authenticates: a bearer token in the `Authorization`
/// header, or an API key in the `X-Api-Key` header.
#[derive(Debug, Clone, PartialEq, Eq)]
pub enum Auth {
    Bearer(BearerToken),
    ApiKey(ApiKey),
}

impl Auth {
    /// Bearer token authentication.
    pub fn bearer(token: &str) -> (r: Auth)
        ensures
            r matches Auth::Bearer(t) && t.spec_text() == token@,
    {
        Auth::Bearer(BearerToken::new(token))
    }

    /// API key authentication.
    pub fn api_key(key: &str) -> (r: Auth)
        ensures
            r matches Auth::ApiKey(k) && k.spec_text() == key@,
    {
        Auth::ApiKey(ApiKey::new(key))
    }
}

impl From<BearerToken> for Auth {
    fn from(token: BearerToken) -> (r: Auth) {
        Auth::Bearer(token)
    }
}

impl vstd::std_specs::convert::FromSpecImpl<BearerToken> for Auth {
    open spec fn obeys_from_spec() -> bool {
        true
    }

    open spec fn from_spec(token: BearerToken) -> Auth {
        Auth::Bearer(token)
    }
}

impl From<ApiKey> for Auth {
    fn from(key: ApiKey) -> (r: Auth) {
        Auth::ApiKey(key)
    }
}

impl vstd::std_specs::convert::FromSpecImpl<ApiKey> for Auth {
    open spec fn obeys_from_spec() -> bool {
        true
    }

    open spec fn from_spec(key: ApiKey) -> Auth {
        Auth::ApiKey(key)
    }
}

} // verus!
