//! The closed set of exchanges whose instruments the system can ingest,
//! with the canonical short string form used for storage encoding.
use vstd::prelude::*;

use crate::errors::VariantNotFoundError;
use crate::text::str_eq_chars;

verus! {

#[derive(Debug, Clone, Copy, PartialEq, Eq, Hash, Structural)]
pub enum ExchangeType {
    Binance,
}

/// The canonical string form of an exchange identifier.
pub open spec fn exchange_chars(e: ExchangeType) -> Seq<char> {
    match e {
        ExchangeType::Binance => "Binance"@,
    }
}

/// The exchange whose canonical string form is `s`, if any.
pub open spec fn exchange_of_chars(s: Seq<char>) -> Option<ExchangeType> {
    if s == exchange_chars(ExchangeType::Binance) {
        Some(ExchangeType::Binance)
    } else {
        None
    }
}

impl ExchangeType {
    /// The canonical short string form, used both for the external API
    /// and for the storage row encoding.
    pub fn as_str(&self) -> (r: &'static str)
        ensures
            r@ == exchange_chars(*self),
    {
        match self {
            ExchangeType::Binance => "Binance",
        }
    }

    /// Parses the canonical string form back into an exchange.
    /// Returns `Some` exactly on the strings that `as_str` produces.
    pub fn parse_short(s: &str) -> (r: Option<ExchangeType>)
        ensures
            r == exchange_of_chars(s@),
    {
        if str_eq_chars(s, "Binance") {
            Some(ExchangeType::Binance)
        } else {
            None
        }
    }
}

impl core::str::FromStr for ExchangeType {
    type Err = VariantNotFoundError;

    fn from_str(s: &str) -> Result<ExchangeType, VariantNotFoundError> {
        match ExchangeType::parse_short(s) {
            Some(e) => Ok(e),
            None => Err(VariantNotFoundError),
        }
    }
}

/// The string form of an exchange parses back to that same exchange:
/// the mapping between exchanges and their short names is lossless.
pub proof fn lemma_exchange_str_roundtrip(e: ExchangeType)
    ensures
        exchange_of_chars(exchange_chars(e)) == Some(e),
{
}

} // verus!
