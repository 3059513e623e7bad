//! Why a text is no amount of NEAR.

use vstd::prelude::*;
use vstd::string::*;

verus! {

/// Why a text is no decimal number.
#[derive(Debug)]
pub enum DecimalNumberParsingError {
    /// The text holds what no number holds.
    InvalidNumber(String),
    /// The part before the point is too large.
    LongWhole(String),
    /// The part after the point has too many digits.
    LongFractional(String),
}

impl DecimalNumberParsingError {
    /// The text that describes the error.
    pub open spec fn spec_message(self) -> Seq<char> {
        match self {
            DecimalNumberParsingError::InvalidNumber(s) => "invalid number: "@ + s@,
            DecimalNumberParsingError::LongWhole(s) => "too long whole part: "@ + s@,
            DecimalNumberParsingError::LongFractional(s) => "too long fractional part: "@ + s@,
        }
    }

    /// The text that describes the error.
    pub fn to_string(&self) -> (r: String)
        ensures
            r@ == self.spec_message(),
    {
        match self {
            DecimalNumberParsingError::InvalidNumber(s) => "invalid number: ".to_owned().concat(
                s.as_str(),
            ),
            DecimalNumberParsingError::LongWhole(s) => "too long whole part: ".to_owned().concat(
                s.as_str(),
            ),
            DecimalNumberParsingError::LongFractional(s) => "too long fractional part: ".to_owned().concat(
            s.as_str()),
        }
    }
}

/// Why a text is no amount of NEAR.
#[derive(Debug)]
pub enum YoctoNearError {
    /// The number in the text is no amount.
    InvalidTokensAmount(DecimalNumberParsingError),
    /// The unit in the text is none of NEAR.
    InvalidTokenUnit(String),
}

impl YoctoNearError {
    /// The text that describes the error.
    pub open spec fn spec_message(self) -> Seq<char> {
        match self {
            YoctoNearError::InvalidTokensAmount(err) => "invalid tokens amount: "@
                + err.spec_message(),
            YoctoNearError::InvalidTokenUnit(unit) => "invalid token unit: "@ + unit@,
        }
    }

    /// The text that describes the error.
    pub fn to_string(&self) -> (r: String)
        ensures
            r@ == self.spec_message(),
    {
        match self {
            YoctoNearError::InvalidTokensAmount(err) => "invalid tokens amount: ".to_owned().concat(
                err.to_string().as_str(),
            ),
            YoctoNearError::InvalidTokenUnit(unit) => "invalid token unit: ".to_owned().concat(
                unit.as_str(),
            ),
        }
    }

    /// The error that lies behind this one, where there is one.
    pub fn source(&self) -> (r: Option<&DecimalNumberParsingError>)
        ensures
            match *self {
                YoctoNearError::InvalidTokensAmount(err) => r == Some(&err),
                YoctoNearError::InvalidTokenUnit(_) => r is None,
            },
    {
        match self {
            YoctoNearError::InvalidTokensAmount(err) => Some(err),
            YoctoNearError::InvalidTokenUnit(_) => None,
        }
    }
}

} // verus!
