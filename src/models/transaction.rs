//! Transactions and the records they refer to.
use crate::text::str_eq;
use crate::types::{CategoryId, MerchantId, TagId};
use vstd::prelude::*;

verus! {

/// Category information, as a transaction refers to it.
#[derive(Debug, Clone, PartialEq, Eq)]
pub struct Category {
    /// Unique identifier.
    pub id: CategoryId,
    /// Category name.
    pub name: String,
    /// Classification (income or expense).
    pub classification: String,
    /// Color for display (hex code).
    pub color: String,
    /// Icon identifier.
    pub icon: String,
}

/// Merchant information, as a transaction refers to it.
#[derive(Debug, Clone, PartialEq, Eq)]
pub struct Merchant {
    /// Unique identifier.
    pub id: MerchantId,
    /// Merchant name.
    pub name: String,
}

/// Tag information.
#[derive(Debug, Clone, PartialEq, Eq)]
pub struct Tag {
    /// Unique identifier.
    pub id: TagId,
    /// Tag name.
    pub name: String,
    /// Color for display (hex code).
    pub color: String,
}

/// Nature of a transaction, which decides its sign.
#[derive(Debug, Clone, Copy, PartialEq, Eq, Hash)]
pub enum TransactionNature {
    /// Income transaction.
    Income,
    /// Expense transaction.
    Expense,
}

impl TransactionNature {
    /// The wire name of the value.
    pub open spec fn spec_name(self) -> Seq<char> {
        match self {
            TransactionNature::Income => "income"@,
            TransactionNature::Expense => "expense"@,
        }
    }

    /// Whether `s` names this value: its name, or an alias.
    pub open spec fn named_by(self, s: Seq<char>) -> bool {
        s == self.spec_name()
            || (self == TransactionNature::Income && (s == "inflow"@))
            || (self == TransactionNature::Expense && (s == "outflow"@))
    }

    /// The wire name, as the value displays.
    pub fn to_string(&self) -> (r: String)
        ensures
            r@ == self.spec_name(),
    {
        match self {
            TransactionNature::Income => "income".to_owned(),
            TransactionNature::Expense => "expense".to_owned(),
        }
    }

    /// Reads a value from its wire name.
    pub fn from_name(s: &str) -> (r: Result<TransactionNature, ParseTransactionNatureError>)
        ensures
            match r {
                Ok(v) => v.named_by(s@),
                Err(e) => (forall|v: TransactionNature| !#[trigger] v.named_by(s@)) && e.spec_text() == s@,
            },
    {
        if str_eq(s, "income") {
            Ok(TransactionNature::Income)
        } else if str_eq(s, "inflow") {
            Ok(TransactionNature::Income)
        } else if str_eq(s, "expense") {
            Ok(TransactionNature::Expense)
        } else if str_eq(s, "outflow") {
            Ok(TransactionNature::Expense)
        } else {
            Err(ParseTransactionNatureError(s.to_owned()))
        }
    }
}

impl std::str::FromStr for TransactionNature {
    type Err = ParseTransactionNatureError;

    fn from_str(s: &str) -> Result<TransactionNature, ParseTransactionNatureError> {
        TransactionNature::from_name(s)
    }
}

/// Error returned when parsing a `TransactionNature` from a string fails.
#[derive(Debug, Clone, PartialEq, Eq)]
pub struct ParseTransactionNatureError(String);

impl ParseTransactionNatureError {
    /// The text that was refused.
    pub closed spec fn spec_text(&self) -> Seq<char> {
        self.0@
    }

    /// The text that was refused.
    pub fn text(&self) -> (r: &str)
        ensures
            r@ == self.spec_text(),
    {
        self.0.as_str()
    }

    /// The error's message: `Invalid transaction nature: ` and the refused text.
    pub fn to_string(&self) -> (r: String)
        ensures
            r@ == "Invalid transaction nature: "@ + self.spec_text(),
    {
        "Invalid transaction nature: ".to_owned().concat(self.0.as_str())
    }
}

/// Transaction filter type.
#[derive(Debug, Clone, Copy, PartialEq, Eq, Hash)]
pub enum TransactionType {
    /// Income transactions.
    Income,
    /// Expense transactions.
    Expense,
}

impl TransactionType {
    /// The wire name of the value.
    pub open spec fn spec_name(self) -> Seq<char> {
        match self {
            TransactionType::Income => "income"@,
            TransactionType::Expense => "expense"@,
        }
    }

    /// Whether `s` names this value.
    pub open spec fn named_by(self, s: Seq<char>) -> bool {
        s == self.spec_name()
    }

    /// The wire name, as the value displays.
    pub fn to_string(&self) -> (r: String)
        ensures
            r@ == self.spec_name(),
    {
        match self {
            TransactionType::Income => "income".to_owned(),
            TransactionType::Expense => "expense".to_owned(),
        }
    }

    /// Reads a value from its wire name.
    pub fn from_name(s: &str) -> (r: Result<TransactionType, ParseTransactionTypeError>)
        ensures
            match r {
                Ok(v) => v.named_by(s@),
                Err(e) => (forall|v: TransactionType| !#[trigger] v.named_by(s@)) && e.spec_text() == s@,
            },
    {
        if str_eq(s, "income") {
            Ok(TransactionType::Income)
        } else if str_eq(s, "expense") {
            Ok(TransactionType::Expense)
        } else {
            Err(ParseTransactionTypeError(s.to_owned()))
        }
    }
}

impl std::str::FromStr for TransactionType {
    type Err = ParseTransactionTypeError;

    fn from_str(s: &str) -> Result<TransactionType, ParseTransactionTypeError> {
        TransactionType::from_name(s)
    }
}

/// Error returned when parsing a `TransactionType` from a string fails.
#[derive(Debug, Clone, PartialEq, Eq)]
pub struct ParseTransactionTypeError(String);

impl ParseTransactionTypeError {
    /// The text that was refused.
    pub closed spec fn spec_text(&self) -> Seq<char> {
        self.0@
    }

    /// The text that was refused.
    pub fn text(&self) -> (r: &str)
        ensures
            r@ == self.spec_text(),
    {
        self.0.as_str()
    }

    /// The error's message: `Invalid transaction type: ` and the refused text.
    pub fn to_string(&self) -> (r: String)
        ensures
            r@ == "Invalid transaction type: "@ + self.spec_text(),
    {
        "Invalid transaction type: ".to_owned().concat(self.0.as_str())
    }
}

} // verus!
