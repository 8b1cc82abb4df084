//! The scalar decoder: from one untyped JSON value to one typed cell.

use vstd::prelude::*;

use crate::error::{view_result, Error, ErrorView};
use crate::nerdgraph::json::{Json, JsonView};
use crate::nerdgraph::number::{
    format_integer, has_fraction_or_exponent, integer_text, integer_value, is_integer_literal,
    is_number, is_number_literal, lemma_integer_is_bare_number, lemma_integer_text, parse_integer,
};
use vstd::string::StringExecFns;

verus! {

/// One cell of a result row.
///
/// A number that is not an `Integer` keeps the text of its literal.
#[derive(Debug, Clone, PartialEq, Eq)]
pub enum JsonValue {
    Integer(i32),
    Float(String),
    String(String),
    Boolean(bool),
}

/// Mathematical model of a [`JsonValue`].
pub ghost enum JsonValueView {
    Integer(int),
    Float(Seq<char>),
    String(Seq<char>),
    Boolean(bool),
}

impl View for JsonValue {
    type V = JsonValueView;

    open spec fn view(&self) -> JsonValueView {
        match self {
            JsonValue::Integer(i) => JsonValueView::Integer(*i as int),
            JsonValue::Float(literal) => JsonValueView::Float(literal@),
            JsonValue::String(text) => JsonValueView::String(text@),
            JsonValue::Boolean(b) => JsonValueView::Boolean(*b),
        }
    }
}

/// Whether `literal` is an integer literal whose value an `Integer` can hold.
pub open spec fn fits_integer(literal: Seq<char>) -> bool {
    is_integer_literal(literal) && i32::MIN <= integer_value(literal) <= i32::MAX
}

impl JsonValueView {
    /// What decoding can produce: an `Integer` in range, and a `Float` whose
    /// literal is a number literal that is no `Integer`.
    pub open spec fn wf(self) -> bool {
        match self {
            JsonValueView::Integer(i) => i32::MIN <= i <= i32::MAX,
            JsonValueView::Float(literal) => is_number_literal(literal) && !fits_integer(literal),
            JsonValueView::String(_) => true,
            JsonValueView::Boolean(_) => true,
        }
    }
}

/// The cell that a JSON value decodes to, if it is a scalar.
///
/// A number is an `Integer` if its literal is an integer literal in range,
/// and a `Float` otherwise; `true` and `false` are `Boolean`; text is
/// `String`, whatever it looks like. Null, arrays, objects and numbers with a
/// malformed literal decode to nothing.
pub open spec fn decode_scalar(value: JsonView) -> Option<JsonValueView> {
    match value {
        JsonView::Number(literal) => if fits_integer(literal) {
            Some(JsonValueView::Integer(integer_value(literal)))
        } else if is_number_literal(literal) {
            Some(JsonValueView::Float(literal))
        } else {
            None
        },
        JsonView::Bool(b) => Some(JsonValueView::Boolean(b)),
        JsonView::Text(text) => Some(JsonValueView::String(text)),
        JsonView::Null => None,
        JsonView::Array(_) => None,
        JsonView::Object(_) => None,
    }
}

/// The JSON value that a cell encodes to.
pub open spec fn encode_scalar(value: JsonValueView) -> JsonView {
    match value {
        JsonValueView::Integer(i) => JsonView::Number(integer_text(i)),
        JsonValueView::Float(literal) => JsonView::Number(literal),
        JsonValueView::String(text) => JsonView::Text(text),
        JsonValueView::Boolean(b) => JsonView::Bool(b),
    }
}

impl JsonValue {
    /// Decodes the cell of column `column`.
    ///
    /// Fails with a decode error that names the column exactly when `value`
    /// is no scalar: null, an array, an object, or a number whose literal is
    /// malformed.
    pub fn decode(column: &str, value: &Json) -> (decoded: Result<JsonValue, Error>)
        ensures
            view_result(decoded) == match decode_scalar(value@) {
                Some(cell) => Ok::<JsonValueView, ErrorView>(cell),
                None => Err(ErrorView::Decode(column@)),
            },
            decoded matches Ok(cell) ==> cell@.wf(),
    {
        match value {
            Json::Number(literal) => {
                match parse_integer(literal.as_str()) {
                    Some(i) => {
                        if i >= i32::MIN as i64 && i <= i32::MAX as i64 {
                            return Ok(JsonValue::Integer(i as i32));
                        }
                    },
                    None => {},
                }
                if is_number(literal.as_str()) {
                    Ok(JsonValue::Float(literal.clone()))
                } else {
                    Err(Error::Decode(String::from_str(column)))
                }
            },
            Json::Bool(b) => Ok(JsonValue::Boolean(*b)),
            Json::Text(text) => Ok(JsonValue::String(text.clone())),
            _ => Err(Error::Decode(String::from_str(column))),
        }
    }

    /// Encodes the cell as a JSON value.
    pub fn encode(&self) -> (json: Json)
        ensures
            json@ == encode_scalar(self@),
    {
        match self {
            JsonValue::Integer(i) => Json::Number(format_integer(*i as i64)),
            JsonValue::Float(literal) => Json::Number(literal.clone()),
            JsonValue::String(text) => Json::Text(text.clone()),
            JsonValue::Boolean(b) => Json::Bool(*b),
        }
    }
}

/// Decoding is decided by the kind of the value alone, in a fixed order.
///
/// A number decodes exactly when its literal is a number literal: to
/// `Integer` if the literal is bare, with neither a fractional nor an
/// exponent part, and its value is in range, and to `Float` with the
/// literal otherwise. `true` and `false` decode to `Boolean`. Text decodes
/// to `String`, also where it reads like a number or a boolean.
pub proof fn lemma_decode_scalar_kinds(literal: Seq<char>, text: Seq<char>, b: bool)
    ensures
        decode_scalar(JsonView::Number(literal)) is Some <==> is_number_literal(literal),
        is_number_literal(literal) && !has_fraction_or_exponent(literal) && i32::MIN
            <= integer_value(literal) <= i32::MAX ==> decode_scalar(JsonView::Number(literal))
            == Some(JsonValueView::Integer(integer_value(literal))),
        is_number_literal(literal) && !has_fraction_or_exponent(literal) && !(i32::MIN
            <= integer_value(literal) <= i32::MAX) ==> decode_scalar(JsonView::Number(literal))
            == Some(JsonValueView::Float(literal)),
        is_number_literal(literal) && has_fraction_or_exponent(literal) ==> decode_scalar(
            JsonView::Number(literal),
        ) == Some(JsonValueView::Float(literal)),
        decode_scalar(JsonView::Bool(b)) == Some(JsonValueView::Boolean(b)),
        decode_scalar(JsonView::Text(text)) == Some(JsonValueView::String(text)),
{
    lemma_integer_is_bare_number(literal);
}

/// Whatever decodes is well-formed.
pub proof fn lemma_decode_scalar_wf(value: JsonView)
    ensures
        decode_scalar(value) matches Some(cell) ==> cell.wf(),
{
}

/// Encoding a well-formed cell and decoding it again gives the cell back.
pub proof fn lemma_scalar_round_trip(cell: JsonValueView)
    requires
        cell.wf(),
    ensures
        decode_scalar(encode_scalar(cell)) == Some(cell),
{
    match cell {
        JsonValueView::Integer(i) => {
            lemma_integer_text(i);
        },
        _ => {},
    }
}

} // verus!
