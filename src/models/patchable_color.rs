use vstd::prelude::*;
use crate::models::color::{self, color_view};
use crate::models::{Color, FieldValue, PatchFieldError, Patchable};

verus! {

/// Encodes a colour field of a patch that is set: null when it clears the
/// colour, six hexadecimal digits otherwise. A field that is left alone is an
/// error: it is to be skipped, never encoded.
pub fn serialize(color: &Patchable<Option<Color>>) -> (r: Result<FieldValue, PatchFieldError>)
    ensures
        match (*color, r) {
            (Patchable::Patched(c), Ok(v)) => v.view() == color_view(c),
            (Patchable::Unmodified, Err(e)) => e == PatchFieldError::Unmodified,
            _ => false,
        },
{
    match color {
        Patchable::Patched(c) => Ok(color::serialize(c)),
        Patchable::Unmodified => Err(PatchFieldError::Unmodified),
    }
}

} // verus!
