//! The failures that grouping and validation report, and their messages.

use vstd::prelude::*;
use vstd::string::StringExecFns;

verus! {

/// Why an argument list could not be split into groups.
#[derive(Debug, PartialEq, Eq)]
pub enum ParseError {
    /// The list starts with a token that is not a flag.
    NotAFlag(String),
}

/// Why a group was rejected by the schema.
#[derive(Debug, PartialEq, Eq)]
pub enum ValidationError {
    /// No schema entry bears the group's flag.
    UnknownFlag(String),
    /// The flag came with fewer arguments than the stated minimum.
    TooFewArguments(String, usize),
    /// The flag came with more arguments than the stated maximum.
    TooManyArguments(String, usize),
    /// The argument (first field) is not among the values the flag (second
    /// field) permits.
    InvalidArgumentValue(String, String),
}

/// Mathematical value of a [`ParseError`].
pub ghost enum ParseErrorView {
    NotAFlag(Seq<char>),
}

/// Mathematical value of a [`ValidationError`].
pub ghost enum ValidationErrorView {
    UnknownFlag(Seq<char>),
    TooFewArguments(Seq<char>, nat),
    TooManyArguments(Seq<char>, nat),
    InvalidArgumentValue(Seq<char>, Seq<char>),
}

impl View for ParseError {
    type V = ParseErrorView;

    open spec fn view(&self) -> ParseErrorView {
        match self {
            ParseError::NotAFlag(token) => ParseErrorView::NotAFlag(token@),
        }
    }
}

impl View for ValidationError {
    type V = ValidationErrorView;

    open spec fn view(&self) -> ValidationErrorView {
        match self {
            ValidationError::UnknownFlag(name) => ValidationErrorView::UnknownFlag(name@),
            ValidationError::TooFewArguments(name, min) => ValidationErrorView::TooFewArguments(
                name@,
                *min as nat,
            ),
            ValidationError::TooManyArguments(name, max) => ValidationErrorView::TooManyArguments(
                name@,
                *max as nat,
            ),
            ValidationError::InvalidArgumentValue(value, name) => {
                ValidationErrorView::InvalidArgumentValue(value@, name@)
            },
        }
    }
}

/// The character that writes the decimal digit `d`.
pub open spec fn digit_char(d: nat) -> char {
    if d == 0 {
        '0'
    } else if d == 1 {
        '1'
    } else if d == 2 {
        '2'
    } else if d == 3 {
        '3'
    } else if d == 4 {
        '4'
    } else if d == 5 {
        '5'
    } else if d == 6 {
        '6'
    } else if d == 7 {
        '7'
    } else if d == 8 {
        '8'
    } else {
        '9'
    }
}

/// The decimal numeral of `n`, without leading zeros.
pub open spec fn decimal(n: nat) -> Seq<char>
    decreases n,
{
    if n < 10 {
        seq![digit_char(n)]
    } else {
        decimal(n / 10).push(digit_char(n % 10))
    }
}

/// The message for a list that starts with the non-flag `token`.
pub open spec fn parse_message(e: ParseErrorView) -> Seq<char> {
    match e {
        ParseErrorView::NotAFlag(token) => token + " is not a valid flag"@,
    }
}

/// The message for each validation failure.
pub open spec fn validation_message(e: ValidationErrorView) -> Seq<char> {
    match e {
        ValidationErrorView::UnknownFlag(name) => name + " is not a valid flag"@,
        ValidationErrorView::TooFewArguments(name, min) => name + " requires at least "@ + decimal(
            min,
        ) + " arguments"@,
        ValidationErrorView::TooManyArguments(name, max) => name + " requires no more than "@
            + decimal(max) + " arguments"@,
        ValidationErrorView::InvalidArgumentValue(value, name) => value
            + " is not a valid argument for "@ + name,
    }
}

fn digit_text(d: usize) -> (text: &'static str)
    requires
        d < 10,
    ensures
        text@ == seq![digit_char(d as nat)],
{
    proof {
        reveal_strlit("0");
        reveal_strlit("1");
        reveal_strlit("2");
        reveal_strlit("3");
        reveal_strlit("4");
        reveal_strlit("5");
        reveal_strlit("6");
        reveal_strlit("7");
        reveal_strlit("8");
        reveal_strlit("9");
    }
    if d == 0 {
        "0"
    } else if d == 1 {
        "1"
    } else if d == 2 {
        "2"
    } else if d == 3 {
        "3"
    } else if d == 4 {
        "4"
    } else if d == 5 {
        "5"
    } else if d == 6 {
        "6"
    } else if d == 7 {
        "7"
    } else if d == 8 {
        "8"
    } else {
        "9"
    }
}

/// Writes `n` in decimal.
pub fn decimal_string(n: usize) -> (text: String)
    ensures
        text@ == decimal(n as nat),
    decreases n,
{
    if n < 10 {
        String::from_str(digit_text(n))
    } else {
        let mut text = decimal_string(n / 10);
        text.append(digit_text(n % 10));
        text
    }
}

impl ParseError {
    /// The human-readable message for this failure.
    pub fn message(&self) -> (text: String)
        ensures
            text@ == parse_message(self@),
    {
        match self {
            ParseError::NotAFlag(token) => {
                let mut text = token.clone();
                text.append(" is not a valid flag");
                text
            },
        }
    }
}

impl ValidationError {
    /// The human-readable message for this failure: it names the offending
    /// flag or argument and, for a count failure, the bound that was missed.
    pub fn message(&self) -> (text: String)
        ensures
            text@ == validation_message(self@),
    {
        match self {
            ValidationError::UnknownFlag(name) => {
                let mut text = name.clone();
                text.append(" is not a valid flag");
                text
            },
            ValidationError::TooFewArguments(name, min) => {
                let mut text = name.clone();
                text.append(" requires at least ");
                let count = decimal_string(*min);
                text.append(count.as_str());
                text.append(" arguments");
                text
            },
            ValidationError::TooManyArguments(name, max) => {
                let mut text = name.clone();
                text.append(" requires no more than ");
                let count = decimal_string(*max);
                text.append(count.as_str());
                text.append(" arguments");
                text
            },
            ValidationError::InvalidArgumentValue(value, name) => {
                let mut text = value.clone();
                text.append(" is not a valid argument for ");
                text.append(name.as_str());
                text
            },
        }
    }
}

} // verus!
