//! Categories of transactions.
use crate::text::str_eq;
use crate::types::CategoryId;
use crate::serde::naive_date::Instant;
use vstd::prelude::*;

verus! {

/// Classification of a category.
#[derive(Debug, Clone, Copy, PartialEq, Eq, Hash)]
pub enum Classification {
    /// Income category.
    Income,
    /// Expense category.
    Expense,
}

impl Classification {
    /// The wire name of the value.
    pub open spec fn spec_name(self) -> Seq<char> {
        match self {
            Classification::Income => "income"@,
            Classification::Expense => "expense"@,
        }
    }

    /// Whether `s` names this value.
    pub open spec fn named_by(self, s: Seq<char>) -> bool {
        s == self.spec_name()
    }

    /// The wire name, as the value displays.
    pub fn to_string(&self) -> (r: String)
        ensures
            r@ == self.spec_name(),
    {
        match self {
            Classification::Income => "income".to_owned(),
            Classification::Expense => "expense".to_owned(),
        }
    }

    /// Reads a value from its wire name.
    pub fn from_name(s: &str) -> (r: Result<Classification, ParseClassificationError>)
        ensures
            match r {
                Ok(v) => v.named_by(s@),
                Err(e) => (forall|v: Classification| !#[trigger] v.named_by(s@)) && e.spec_text() == s@,
            },
    {
        if str_eq(s, "income") {
            Ok(Classification::Income)
        } else if str_eq(s, "expense") {
            Ok(Classification::Expense)
        } else {
            Err(ParseClassificationError(s.to_owned()))
        }
    }
}

impl std::str::FromStr for Classification {
    type Err = ParseClassificationError;

    fn from_str(s: &str) -> Result<Classification, ParseClassificationError> {
        Classification::from_name(s)
    }
}

/// Error returned when parsing a `Classification` from a string fails.
#[derive(Debug, Clone, PartialEq, Eq)]
pub struct ParseClassificationError(String);

impl ParseClassificationError {
    /// The text that was refused.
    pub closed spec fn spec_text(&self) -> Seq<char> {
        self.0@
    }

    /// The text that was refused.
    pub fn text(&self) -> (r: &str)
        ensures
            r@ == self.spec_text(),
    {
        self.0.as_str()
    }

    /// The error's message: `Invalid classification: ` and the refused text.
    pub fn to_string(&self) -> (r: String)
        ensures
            r@ == "Invalid classification: "@ + self.spec_text(),
    {
        "Invalid classification: ".to_owned().concat(self.0.as_str())
    }
}

/// Basic category information.
#[derive(Debug, Clone, PartialEq, Eq)]
pub struct Category {
    /// Unique identifier.
    pub id: CategoryId,
    /// Category name.
    pub name: String,
    /// Classification (income or expense).
    pub classification: String,
    /// Color for display (hex code).
    pub color: String,
    /// Icon identifier.
    pub icon: String,
}

/// Parent category reference.
#[derive(Debug, Clone, PartialEq, Eq)]
pub struct CategoryParent {
    /// Parent category identifier.
    pub id: CategoryId,
    /// Parent category name.
    pub name: String,
}

/// Detailed category information.
#[derive(Debug, Clone, PartialEq, Eq)]
pub struct CategoryDetail {
    /// Unique identifier.
    pub id: CategoryId,
    /// Category name.
    pub name: String,
    /// Classification (income or expense).
    pub classification: Classification,
    /// Color for display (hex code).
    pub color: String,
    /// Icon identifier.
    pub icon: String,
    /// Parent category, for a subcategory.
    pub parent: Option<CategoryParent>,
    /// Number of subcategories.
    pub subcategories_count: u32,
    /// Creation time.
    pub created_at: Instant,
    /// Last update time.
    pub updated_at: Instant,
}

/// A list of categories.
#[derive(Debug, Clone)]
pub struct CategoryCollection {
    /// The categories.
    pub categories: Vec<CategoryDetail>,
}

} // verus!
