//! Field decoders for the upstream wire format, which writes every number as a
//! string, and the page decoder built on them.

use crate::text::{
    decimal_value, is_float_text, is_float_literal, parse_grouped_u64, parse_u64, str_eq,
    trimmed, without_commas,
};
use vstd::prelude::*;

verus! {

/// Latest instant a timestamp field may name: 9999-12-31T23:59:59Z, in Unix seconds.
pub const MAX_TIMESTAMP: u64 = 253402300799;

/// Why a page or one of its fields could not be decoded.
#[derive(Debug, Clone, Copy, PartialEq, Eq, Structural)]
pub enum DecodeError {
    /// The payload does not have the shape of a page.
    Payload,
    /// An integer field is not a decimal that fits its type.
    Integer,
    /// A float field is not a float literal.
    Float,
    /// A timestamp field is not a decimal count of seconds in range.
    Timestamp,
    /// An interval does not end after it starts.
    Span,
}

/// A float measure, kept as the literal the source wrote.
#[derive(Debug, Clone, PartialEq)]
pub enum FloatText {
    /// The literal `NaN`.
    NotANumber,
    /// Any other literal that `str::parse::<f64>` accepts.
    Number(String),
}

/// The value a float measure stands for.
pub ghost enum FloatView {
    NotANumber,
    Number(Seq<char>),
}

/// How a float literal decodes, if it does.
pub open spec fn decode_float(s: Seq<char>) -> Option<FloatView> {
    if s == "NaN"@ {
        Some(FloatView::NotANumber)
    } else if is_float_text(s) {
        Some(FloatView::Number(s))
    } else {
        None
    }
}

/// The literal a float measure is written back as.
pub open spec fn encode_float(f: FloatView) -> Seq<char> {
    match f {
        FloatView::NotANumber => "NaN"@,
        FloatView::Number(t) => t,
    }
}

impl View for FloatText {
    type V = FloatView;

    open spec fn view(&self) -> FloatView {
        match self {
            FloatText::NotANumber => FloatView::NotANumber,
            FloatText::Number(s) => FloatView::Number(s@),
        }
    }
}

impl FloatText {
    /// Decodes a float field: `NaN` is the not-a-number value, anything else
    /// must be a float literal.
    pub fn decode(s: &str) -> (r: Result<FloatText, DecodeError>)
        ensures
            r matches Ok(f) ==> decode_float(s@) == Some(f@),
            r matches Err(e) ==> decode_float(s@) is None && e == DecodeError::Float,
    {
        if str_eq(s, "NaN") {
            Ok(FloatText::NotANumber)
        } else if is_float_literal(s) {
            Ok(FloatText::Number(String::from_str(s)))
        } else {
            Err(DecodeError::Float)
        }
    }

    /// A copy with the same value.
    pub fn copied(&self) -> (r: FloatText)
        ensures
            r@ == self@,
    {
        match self {
            FloatText::NotANumber => FloatText::NotANumber,
            FloatText::Number(s) => FloatText::Number(s.clone()),
        }
    }

    /// The literal this measure is written back as.
    pub fn encode(&self) -> (r: String)
        ensures
            r@ == encode_float(self@),
    {
        match self {
            FloatText::NotANumber => String::from_str("NaN"),
            FloatText::Number(s) => s.clone(),
        }
    }
}

/// Decoding a float field and writing it back gives the text that was read;
/// in particular `NaN` comes back as `NaN`.
pub proof fn lemma_float_round_trip(s: Seq<char>)
    requires
        decode_float(s) is Some,
    ensures
        encode_float(decode_float(s)->0) == s,
        s == "NaN"@ ==> decode_float(s) == Some(FloatView::NotANumber),
{
}

/// The value of an integer field that must fit below `max`.
pub open spec fn bounded_value(s: Seq<char>, max: int) -> Option<int> {
    match decimal_value(s) {
        Some(n) => if n <= max { Some(n) } else { None },
        None => None,
    }
}

/// Decodes an unsigned 64-bit field.
pub fn decode_u64(s: &str) -> (r: Result<u64, DecodeError>)
    ensures
        r matches Ok(v) ==> bounded_value(s@, u64::MAX as int) == Some(v as int),
        r matches Err(e) ==> bounded_value(s@, u64::MAX as int) is None && e == DecodeError::Integer,
{
    match parse_u64(s) {
        Some(v) => Ok(v),
        None => Err(DecodeError::Integer),
    }
}

/// Decodes an unsigned 32-bit field.
pub fn decode_u32(s: &str) -> (r: Result<u32, DecodeError>)
    ensures
        r matches Ok(v) ==> bounded_value(s@, u32::MAX as int) == Some(v as int),
        r matches Err(e) ==> bounded_value(s@, u32::MAX as int) is None && e == DecodeError::Integer,
{
    match parse_u64(s) {
        Some(v) => if v <= u32::MAX as u64 {
            Ok(v as u32)
        } else {
            Err(DecodeError::Integer)
        },
        None => Err(DecodeError::Integer),
    }
}

/// The text of a count field once white space and digit group separators are gone.
pub open spec fn grouped_digits(s: Seq<char>) -> Seq<char> {
    without_commas(trimmed(s))
}

/// Decodes a count that may carry surrounding white space and `,` separators.
pub fn decode_grouped_u64(s: &str) -> (r: Result<u64, DecodeError>)
    ensures
        r matches Ok(v) ==> bounded_value(grouped_digits(s@), u64::MAX as int) == Some(v as int),
        r matches Err(e) ==> bounded_value(grouped_digits(s@), u64::MAX as int) is None && e
            == DecodeError::Integer,
{
    match parse_grouped_u64(s) {
        Some(v) => Ok(v),
        None => Err(DecodeError::Integer),
    }
}

/// Decodes a timestamp field: Unix seconds written as a decimal string.
pub fn decode_timestamp(s: &str) -> (r: Result<i64, DecodeError>)
    ensures
        r matches Ok(v) ==> bounded_value(s@, MAX_TIMESTAMP as int) == Some(v as int),
        r matches Err(e) ==> bounded_value(s@, MAX_TIMESTAMP as int) is None && e
            == DecodeError::Timestamp,
{
    match parse_u64(s) {
        Some(v) => if v <= MAX_TIMESTAMP {
            Ok(v as i64)
        } else {
            Err(DecodeError::Timestamp)
        },
        None => Err(DecodeError::Timestamp),
    }
}

} // verus!
