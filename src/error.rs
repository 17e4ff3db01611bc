use vstd::prelude::*;

verus! {

/// The single failure of the wire adapters: the offending value did not have
/// an accepted shape. Each variant carries what was received.
#[derive(Debug, Clone, PartialEq, Eq)]
pub enum ParseFailure {
    /// A monetary amount that did not reduce to a decimal number.
    Amount { text: String },
    /// A calendar date that is not a valid `YYYY-MM-DD` string.
    Date { text: String },
    /// A timestamp that is neither RFC 3339 nor a `YYYY-MM-DD` date.
    Timestamp { text: String },
    /// A duration given as a negative number of seconds.
    NegativeDuration { seconds: i64 },
}

impl ParseFailure {
    /// An amount failure that carries the text `s`.
    pub open spec fn is_amount_of(self, s: Seq<char>) -> bool {
        match self {
            ParseFailure::Amount { text } => text@ == s,
            _ => false,
        }
    }

    /// A date failure that carries the text `s`.
    pub open spec fn is_date_of(self, s: Seq<char>) -> bool {
        match self {
            ParseFailure::Date { text } => text@ == s,
            _ => false,
        }
    }

    /// A timestamp failure that carries the text `s`.
    pub open spec fn is_timestamp_of(self, s: Seq<char>) -> bool {
        match self {
            ParseFailure::Timestamp { text } => text@ == s,
            _ => false,
        }
    }
}

} // verus!
