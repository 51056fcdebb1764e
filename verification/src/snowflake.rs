//! Identifiers of bots and users.

use crate::decimal::{
    decimal_text, decimal_value, format_decimal, lemma_decimal_roundtrip, parse_decimal,
};
use vstd::prelude::*;

verus! {

/// An opaque 64-bit identifier.
#[derive(Clone, Copy, Debug, PartialEq, Eq, Structural, Hash, PartialOrd, Ord)]
pub struct Snowflake(pub u64);

impl Default for Snowflake {
    fn default() -> (zero: Snowflake)
        ensures
            zero.0 == 0,
    {
        Snowflake(0)
    }
}

/// The text that carries an identifier: its decimal notation, which loses no digit.
pub fn serialize(value: &Snowflake) -> (text: String)
    ensures
        text@ == decimal_text(value.0 as nat),
{
    format_decimal(value.0)
}

/// The identifier that a text carries: `Some` exactly for the decimal notations
/// of the 64-bit numbers.
pub fn deserialize(text: &str) -> (value: Option<Snowflake>)
    ensures
        match value {
            Some(id) => decimal_value(text@, u64::MAX as nat) == Some(id.0 as nat),
            None => decimal_value(text@, u64::MAX as nat) is None,
        },
{
    match parse_decimal(text, u64::MAX) {
        Some(number) => Some(Snowflake(number)),
        None => None,
    }
}

/// An identifier survives the way through text: what `serialize` writes,
/// `deserialize` reads as the same identifier.
pub proof fn lemma_snowflake_round_trip(id: Snowflake)
    ensures
        decimal_value(decimal_text(id.0 as nat), u64::MAX as nat) == Some(id.0 as nat),
{
    lemma_decimal_roundtrip(id.0 as nat, u64::MAX as nat);
}

} // verus!
