use vstd::prelude::*;
use vstd::string::StringSliceAdditionalSpecFns;
use crate::models::{hex_pair, is_hex_text, Color, ColorError, FieldValue, ValueView};

verus! {

/// The encoding of an optional colour: six hexadecimal digits, or null.
pub open spec fn color_view(color: Option<Color>) -> ValueView {
    match color {
        Some(c) => ValueView::Text(c.spec_hex()),
        None => ValueView::Null,
    }
}

/// Encodes an optional colour: null when absent, its six lower-case
/// hexadecimal digits otherwise.
pub fn serialize(color: &Option<Color>) -> (r: FieldValue)
    ensures
        r.view() == color_view(*color),
{
    match color {
        None => FieldValue::Null,
        Some(c) => FieldValue::Text(c.to_hex()),
    }
}

/// Decodes an optional colour: absent stays absent, text must be six
/// hexadecimal digits of either case.
pub fn deserialize(text: Option<&str>) -> (r: Result<Option<Color>, ColorError>)
    ensures
        text is None ==> r == Ok::<Option<Color>, ColorError>(None),
        text matches Some(t) ==> (r is Ok <==> is_hex_text(t.spec_bytes()) && t.spec_bytes().len()
            == 6),
        text matches Some(t) ==> (r matches Ok(Some(c)) ==> c.r == hex_pair(t.spec_bytes(), 0)
            && c.g == hex_pair(t.spec_bytes(), 1) && c.b == hex_pair(t.spec_bytes(), 2)),
        r matches Ok(c) ==> (c is Some <==> text is Some),
{
    match text {
        None => Ok(None),
        Some(t) => match Color::from_hex(t) {
            Ok(c) => Ok(Some(c)),
            Err(e) => Err(e),
        },
    }
}

} // verus!
