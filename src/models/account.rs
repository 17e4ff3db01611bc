//! Accounts and the attributes of each kind of account.
use crate::decimal::Decimal;
use crate::serde::naive_date::Instant;
use crate::text::str_eq;
pub use serde_json::Value as JsonValue;
use vstd::prelude::*;

verus! {

#[verifier::external_type_specification]
#[verifier::external_body]
pub struct ExJsonValue(serde_json::Value);

/// Relies on the derived `Clone` for `serde_json::Value`: the clone equals
/// the value.
pub assume_specification[ <serde_json::Value as Clone>::clone ](v: &serde_json::Value) -> (r:
    serde_json::Value)
    ensures
        r == *v,
;

/// The kind of an account.
#[derive(Debug, Clone, Copy, PartialEq, Eq)]
pub enum AccountKind {
    /// A depository account, such as a checking or savings account.
    Depository,
    /// A credit card account.
    CreditCard,
    /// An investment account, such as a brokerage or retirement account.
    Investment,
    /// A property asset, such as real estate or a vehicle.
    Property,
    /// A loan or debt account, such as a mortgage or student loan.
    Loan,
    /// Any other type of asset.
    OtherAsset,
    /// Any other type of liability.
    OtherLiability,
}

impl AccountKind {
    /// The wire name of the value.
    pub open spec fn spec_name(self) -> Seq<char> {
        match self {
            AccountKind::Depository => "Depository"@,
            AccountKind::CreditCard => "CreditCard"@,
            AccountKind::Investment => "Investment"@,
            AccountKind::Property => "Property"@,
            AccountKind::Loan => "Loan"@,
            AccountKind::OtherAsset => "OtherAsset"@,
            AccountKind::OtherLiability => "OtherLiability"@,
        }
    }

    /// Whether `s` names this value.
    pub open spec fn named_by(self, s: Seq<char>) -> bool {
        s == self.spec_name()
    }

    /// The wire name, as the value displays.
    pub fn to_string(&self) -> (r: String)
        ensures
            r@ == self.spec_name(),
    {
        match self {
            AccountKind::Depository => "Depository".to_owned(),
            AccountKind::CreditCard => "CreditCard".to_owned(),
            AccountKind::Investment => "Investment".to_owned(),
            AccountKind::Property => "Property".to_owned(),
            AccountKind::Loan => "Loan".to_owned(),
            AccountKind::OtherAsset => "OtherAsset".to_owned(),
            AccountKind::OtherLiability => "OtherLiability".to_owned(),
        }
    }

    /// Reads a value from its wire name.
    pub fn from_name(s: &str) -> (r: Result<AccountKind, ParseAccountKindError>)
        ensures
            match r {
                Ok(v) => v.named_by(s@),
                Err(e) => (forall|v: AccountKind| !#[trigger] v.named_by(s@)) && e.spec_text() == s@,
            },
    {
        if str_eq(s, "Depository") {
            Ok(AccountKind::Depository)
        } else if str_eq(s, "CreditCard") {
            Ok(AccountKind::CreditCard)
        } else if str_eq(s, "Investment") {
            Ok(AccountKind::Investment)
        } else if str_eq(s, "Property") {
            Ok(AccountKind::Property)
        } else if str_eq(s, "Loan") {
            Ok(AccountKind::Loan)
        } else if str_eq(s, "OtherAsset") {
            Ok(AccountKind::OtherAsset)
        } else if str_eq(s, "OtherLiability") {
            Ok(AccountKind::OtherLiability)
        } else {
            Err(ParseAccountKindError(s.to_owned()))
        }
    }
}

impl std::str::FromStr for AccountKind {
    type Err = ParseAccountKindError;

    fn from_str(s: &str) -> Result<AccountKind, ParseAccountKindError> {
        AccountKind::from_name(s)
    }
}

/// Error returned when parsing an `AccountKind` from a string fails.
#[derive(Debug, Clone, PartialEq, Eq)]
pub struct ParseAccountKindError(String);

impl ParseAccountKindError {
    /// The text that was refused.
    pub closed spec fn spec_text(&self) -> Seq<char> {
        self.0@
    }

    /// The text that was refused.
    pub fn text(&self) -> (r: &str)
        ensures
            r@ == self.spec_text(),
    {
        self.0.as_str()
    }

    /// The error's message: `Invalid account kind: ` and the refused text.
    pub fn to_string(&self) -> (r: String)
        ensures
            r@ == "Invalid account kind: "@ + self.spec_text(),
    {
        "Invalid account kind: ".to_owned().concat(self.0.as_str())
    }
}

/// Subtype of a depository account.
#[derive(Debug, Clone, PartialEq, Eq)]
pub enum DepositorySubtype {
    /// Checking account.
    Checking,
    /// Savings account.
    Savings,
    /// Health savings account.
    Hsa,
    /// Certificate of deposit.
    Cd,
    /// Money market account.
    MoneyMarket,
}

/// Subtype of an investment account.
#[derive(Debug, Clone, PartialEq, Eq)]
pub enum InvestmentSubtype {
    /// Standard brokerage account.
    Brokerage,
    /// Pension account.
    Pension,
    /// General retirement account.
    Retirement,
    /// 401(k) retirement plan.
    FourZeroOneK,
    /// Roth 401(k) retirement plan.
    RothFourZeroOneK,
    /// 403(b) retirement plan.
    FourZeroThreeB,
    /// Thrift savings plan.
    Tsp,
    /// 529 education savings plan.
    FiveTwoNinePlan,
    /// Health savings account.
    Hsa,
    /// Mutual fund account.
    MutualFund,
    /// Traditional IRA.
    Ira,
    /// Roth IRA.
    RothIra,
    /// Angel investment account.
    Angel,
}

/// Subtype of a property asset.
#[derive(Debug, Clone, PartialEq, Eq)]
pub enum PropertySubtype {
    /// Single family home.
    SingleFamilyHome,
    /// Multi-family home.
    MultiFamilyHome,
    /// Condominium.
    Condominium,
    /// Townhouse.
    Townhouse,
    /// Investment property.
    InvestmentProperty,
    /// Second home.
    SecondHome,
}

/// Address of a property.
#[derive(Debug, Clone, PartialEq, Eq)]
pub struct Address {
    /// Address line 1.
    pub line1: Option<String>,
    /// Address line 2.
    pub line2: Option<String>,
    /// City or locality.
    pub locality: Option<String>,
    /// State or region.
    pub region: Option<String>,
    /// Postal code.
    pub postal_code: Option<String>,
    /// Country.
    pub country: Option<String>,
}

/// Subtype of a loan.
#[derive(Debug, Clone, PartialEq, Eq)]
pub enum LoanSubtype {
    /// Mortgage loan.
    Mortgage,
    /// Student loan.
    Student,
    /// Auto loan.
    Auto,
    /// Other loan type.
    Other,
}

/// Rate type of a loan.
#[derive(Debug, Clone, PartialEq, Eq)]
pub enum LoanRateType {
    /// Fixed interest rate.
    Fixed,
    /// Variable interest rate.
    Variable,
}

/// Attributes of a depository (cash) account.
#[derive(Debug, Clone, PartialEq, Eq)]
pub struct DepositoryAttributes {
    /// Account subtype.
    pub subtype: Option<DepositorySubtype>,
    /// Attributes that syncs must not overwrite.
    pub locked_attributes: Option<JsonValue>,
}

/// Attributes of an investment account.
#[derive(Debug, Clone, PartialEq, Eq)]
pub struct InvestmentAttributes {
    /// Account subtype.
    pub subtype: Option<InvestmentSubtype>,
    /// Attributes that syncs must not overwrite.
    pub locked_attributes: Option<JsonValue>,
}

/// Attributes of a cryptocurrency account.
#[derive(Debug, Clone, PartialEq, Eq)]
pub struct CryptoAttributes {
    /// Account subtype (no predefined values).
    pub subtype: Option<String>,
    /// Attributes that syncs must not overwrite.
    pub locked_attributes: Option<JsonValue>,
}

/// Attributes of a property asset.
#[derive(Debug, Clone, PartialEq, Eq)]
pub struct PropertyAttributes {
    /// Property subtype.
    pub subtype: Option<PropertySubtype>,
    /// Year the property was built.
    pub year_built: Option<i32>,
    /// Area of the property.
    pub area_value: Option<i32>,
    /// Unit of the area (default "sqft").
    pub area_unit: Option<String>,
    /// Attributes that syncs must not overwrite.
    pub locked_attributes: Option<JsonValue>,
    /// Address of the property.
    pub address_attributes: Option<Address>,
}

/// Attributes of a vehicle asset.
#[derive(Debug, Clone, PartialEq, Eq)]
pub struct VehicleAttributes {
    /// Vehicle year.
    pub year: Option<i32>,
    /// Vehicle make.
    pub make: Option<String>,
    /// Vehicle model.
    pub model: Option<String>,
    /// Mileage.
    pub mileage_value: Option<i32>,
    /// Unit of the mileage (default "mi").
    pub mileage_unit: Option<String>,
    /// Vehicle subtype (no predefined values).
    pub subtype: Option<String>,
    /// Attributes that syncs must not overwrite.
    pub locked_attributes: Option<JsonValue>,
}

/// Attributes of other assets.
#[derive(Debug, Clone, PartialEq, Eq)]
pub struct OtherAssetAttributes {
    /// Account subtype (no predefined values).
    pub subtype: Option<String>,
    /// Attributes that syncs must not overwrite.
    pub locked_attributes: Option<JsonValue>,
}

/// Attributes of a credit card.
#[derive(Debug, Clone, PartialEq, Eq)]
pub struct CreditCardAttributes {
    /// Credit card subtype.
    pub subtype: Option<String>,
    /// Available credit.
    pub available_credit: Option<Decimal>,
    /// Minimum payment.
    pub minimum_payment: Option<Decimal>,
    /// Annual percentage rate.
    pub apr: Option<Decimal>,
    /// Card expiration date.
    pub expiration_date: Option<Instant>,
    /// Annual fee.
    pub annual_fee: Option<Decimal>,
    /// Attributes that syncs must not overwrite.
    pub locked_attributes: Option<JsonValue>,
}

/// Attributes of a loan.
#[derive(Debug, Clone, PartialEq, Eq)]
pub struct LoanAttributes {
    /// Loan subtype.
    pub subtype: Option<LoanSubtype>,
    /// Interest rate type.
    pub rate_type: Option<LoanRateType>,
    /// Interest rate, in percent.
    pub interest_rate: Option<Decimal>,
    /// Loan term in months.
    pub term_months: Option<i32>,
    /// Initial loan balance.
    pub initial_balance: Option<Decimal>,
    /// Attributes that syncs must not overwrite.
    pub locked_attributes: Option<JsonValue>,
}

/// Attributes of other liabilities.
#[derive(Debug, Clone, PartialEq, Eq)]
pub struct OtherLiabilityAttributes {
    /// Account subtype (no predefined values).
    pub subtype: Option<String>,
    /// Attributes that syncs must not overwrite.
    pub locked_attributes: Option<JsonValue>,
}

/// Attributes specific to each kind of account; the variant must match the
/// kind the account is created with.
#[derive(Debug, Clone, PartialEq)]
pub enum AccountableAttributes {
    /// Depository account attributes.
    Depository(DepositoryAttributes),
    /// Investment account attributes.
    Investment(InvestmentAttributes),
    /// Cryptocurrency account attributes.
    Crypto(CryptoAttributes),
    /// Property asset attributes.
    Property(PropertyAttributes),
    /// Vehicle asset attributes.
    Vehicle(VehicleAttributes),
    /// Other asset attributes.
    OtherAsset(OtherAssetAttributes),
    /// Credit card attributes.
    CreditCard(CreditCardAttributes),
    /// Loan attributes.
    Loan(LoanAttributes),
    /// Other liability attributes.
    OtherLiability(OtherLiabilityAttributes),
}

impl AccountableAttributes {
    /// The account kind these attributes belong to. Cryptocurrency and
    /// vehicles are kinds of property.
    pub open spec fn spec_kind(&self) -> AccountKind {
        match self {
            AccountableAttributes::Depository(_) => AccountKind::Depository,
            AccountableAttributes::Investment(_) => AccountKind::Investment,
            AccountableAttributes::Crypto(_) => AccountKind::Property,
            AccountableAttributes::Property(_) => AccountKind::Property,
            AccountableAttributes::Vehicle(_) => AccountKind::Property,
            AccountableAttributes::OtherAsset(_) => AccountKind::OtherAsset,
            AccountableAttributes::CreditCard(_) => AccountKind::CreditCard,
            AccountableAttributes::Loan(_) => AccountKind::Loan,
            AccountableAttributes::OtherLiability(_) => AccountKind::OtherLiability,
        }
    }

    /// The account kind these attributes belong to.
    pub fn kind(&self) -> (r: AccountKind)
        ensures
            r == self.spec_kind(),
    {
        match self {
            AccountableAttributes::Depository(_) => AccountKind::Depository,
            AccountableAttributes::Investment(_) => AccountKind::Investment,
            AccountableAttributes::Crypto(_) => AccountKind::Property,
            AccountableAttributes::Property(_) => AccountKind::Property,
            AccountableAttributes::Vehicle(_) => AccountKind::Property,
            AccountableAttributes::OtherAsset(_) => AccountKind::OtherAsset,
            AccountableAttributes::CreditCard(_) => AccountKind::CreditCard,
            AccountableAttributes::Loan(_) => AccountKind::Loan,
            AccountableAttributes::OtherLiability(_) => AccountKind::OtherLiability,
        }
    }
}

} // verus!
